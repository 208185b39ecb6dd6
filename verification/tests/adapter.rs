use ble_central::api::BDAddr;
use ble_central::bluez::adapter::Adapter;
use ble_central::bluez::peripheral::Peripheral;
use ble_central::bluez::session::{AdapterId, BluetoothError, DeviceId, DeviceInfo, MacAddress};
use ble_central::error::Error;

fn adapter() -> Adapter<String> {
    Adapter::new("system bus".to_string(), AdapterId { name: "hci0".to_string() })
}

fn device(name: &str, last: u8) -> DeviceInfo {
    DeviceInfo {
        id: DeviceId { name: name.to_string() },
        mac_address: MacAddress { octets: [0xAA, 0xBB, 0xCC, 0xDD, 0xEE, last] },
    }
}

fn address(last: u8) -> BDAddr {
    BDAddr::from([0xAA, 0xBB, 0xCC, 0xDD, 0xEE, last])
}

fn failure(message: &str) -> BluetoothError {
    BluetoothError { message: message.to_string() }
}

#[test]
fn adapter_keeps_its_session_and_name() {
    let adapter = adapter();
    assert_eq!(adapter.session(), "system bus");
    assert_eq!(adapter.adapter(), &AdapterId { name: "hci0".to_string() });
}

#[test]
fn peripheral_keeps_what_it_was_made_of() {
    let peripheral = Peripheral::new(7u32, device("hci0/dev_1", 0x01));
    assert_eq!(*peripheral.session(), 7);
    assert_eq!(peripheral.device(), &device("hci0/dev_1", 0x01));
    assert_eq!(peripheral.address(), address(0x01));
}

#[test]
fn peripheral_with_known_address_is_found() {
    let listing = Ok(vec![device("hci0/dev_1", 0x01), device("hci0/dev_2", 0x02)]);
    let found = adapter().peripheral(listing, address(0x02)).expect("the address is listed");
    assert_eq!(found.device(), &device("hci0/dev_2", 0x02));
    assert_eq!(found.address(), address(0x02));
    assert_eq!(found.session(), "system bus");
}

#[test]
fn peripheral_with_unknown_address_is_not_found() {
    let listing = Ok(vec![device("hci0/dev_1", 0x01), device("hci0/dev_2", 0x02)]);
    let found = adapter().peripheral(listing, address(0x03));
    assert_eq!(found.err(), Some(Error::DeviceNotFound));
}

#[test]
fn peripheral_in_empty_list_is_not_found() {
    let found = adapter().peripheral(Ok(vec![]), address(0x01));
    assert_eq!(found.err(), Some(Error::DeviceNotFound));
}

#[test]
fn first_of_several_devices_with_the_address_is_taken() {
    let listing = Ok(vec![
        device("hci0/dev_other", 0x09),
        device("hci0/dev_first", 0x05),
        device("hci1/dev_second", 0x05),
    ]);
    let found = adapter().peripheral(listing, address(0x05)).expect("the address is listed");
    assert_eq!(found.device().id, DeviceId { name: "hci0/dev_first".to_string() });
}

#[test]
fn address_must_match_in_every_octet() {
    let listed = DeviceInfo {
        id: DeviceId { name: "hci0/dev_1".to_string() },
        mac_address: MacAddress { octets: [0x01, 0xBB, 0xCC, 0xDD, 0xEE, 0x01] },
    };
    let found = adapter().peripheral(Ok(vec![listed]), address(0x01));
    assert_eq!(found.err(), Some(Error::DeviceNotFound));
}

#[test]
fn failed_listing_fails_the_search_with_its_message() {
    let found = adapter().peripheral(Err(failure("D-Bus connection lost")), address(0x01));
    assert_eq!(found.err(), Some(Error::Other("D-Bus connection lost".to_string())));
}

#[test]
fn peripherals_are_one_per_listed_device() {
    let devices =
        vec![device("hci0/dev_3", 0x03), device("hci0/dev_1", 0x01), device("hci0/dev_2", 0x02)];
    let all = adapter().peripherals(Ok(devices.clone())).expect("the listing succeeded");
    assert_eq!(all.len(), 3);
    for (peripheral, device) in all.iter().zip(devices.iter()) {
        assert_eq!(peripheral.device(), device);
        assert_eq!(peripheral.session(), "system bus");
    }
}

#[test]
fn peripherals_keep_devices_that_share_an_address() {
    let devices = vec![device("hci0/dev_1", 0x01), device("hci1/dev_1", 0x01)];
    let all = adapter().peripherals(Ok(devices)).expect("the listing succeeded");
    assert_eq!(all.len(), 2);
    assert_eq!(all[0].device().id.name, "hci0/dev_1");
    assert_eq!(all[1].device().id.name, "hci1/dev_1");
}

#[test]
fn peripherals_of_empty_listing_are_none() {
    let all = adapter().peripherals(Ok(vec![])).expect("the listing succeeded");
    assert!(all.is_empty());
}

#[test]
fn failed_listing_fails_peripherals_with_its_message() {
    let all = adapter().peripherals(Err(failure("Service discovery timed out")));
    assert_eq!(all.err(), Some(Error::Other("Service discovery timed out".to_string())));
}

#[test]
fn start_scan_succeeds_when_the_session_does() {
    assert_eq!(adapter().start_scan(Ok(())), Ok(()));
}

#[test]
fn start_scan_fails_with_the_message_of_the_session() {
    let adapter = adapter();
    assert_eq!(
        adapter.start_scan(Err(failure("No Bluetooth adapters found."))),
        Err(Error::Other("No Bluetooth adapters found.".to_string()))
    );
    assert_eq!(adapter.session(), "system bus");
    assert_eq!(adapter.adapter().name, "hci0");
}

#[test]
fn stop_scan_succeeds_when_the_session_does() {
    assert_eq!(adapter().stop_scan(Ok(())), Ok(()));
}

#[test]
fn stop_scan_fails_with_the_message_of_the_session() {
    let adapter = adapter();
    assert_eq!(
        adapter.stop_scan(Err(failure("org.bluez.Error.Failed"))),
        Err(Error::Other("org.bluez.Error.Failed".to_string()))
    );
    assert_eq!(adapter.session(), "system bus");
    assert_eq!(adapter.adapter().name, "hci0");
}

#[test]
fn events_hand_on_the_stream_with_the_session() {
    let subscribed: Result<Vec<u8>, BluetoothError> = Ok(vec![1, 2, 3]);
    let (stream, session) = adapter().events(subscribed).expect("the subscription succeeded");
    assert_eq!(stream, vec![1, 2, 3]);
    assert_eq!(session, "system bus");
}

#[test]
fn events_fail_only_with_the_subscription() {
    let subscribed: Result<Vec<u8>, BluetoothError> = Err(failure("D-Bus connection lost"));
    assert_eq!(
        adapter().events(subscribed).err(),
        Some(Error::Other("D-Bus connection lost".to_string()))
    );
}

#[test]
fn subscriptions_of_one_adapter_are_independent() {
    let adapter = adapter();
    let first = adapter.events(Ok::<u8, BluetoothError>(1)).expect("the subscription succeeded");
    let second = adapter.events(Ok::<u8, BluetoothError>(2)).expect("the subscription succeeded");
    assert_eq!(first, (1, "system bus".to_string()));
    assert_eq!(second, (2, "system bus".to_string()));
}

#[test]
fn cloned_adapter_stands_for_the_same_session() {
    let adapter = adapter();
    let copy = adapter.clone();
    assert_eq!(copy.session(), adapter.session());
    assert_eq!(copy.adapter(), adapter.adapter());
}
