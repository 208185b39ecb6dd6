use ble_central::api::{BDAddr, CentralEvent};
use ble_central::bluez::session::{BluetoothError, MacAddress};
use ble_central::error::Error;
use std::collections::HashSet;

#[test]
fn address_keeps_its_octets() {
    let octets = [0x00, 0x1A, 0x7D, 0xDA, 0x71, 0x13];
    assert_eq!(BDAddr::from(octets).into_inner(), octets);
}

#[test]
fn address_of_mac_address_has_the_same_octets() {
    let mac_address = MacAddress { octets: [0xAA, 0xBB, 0xCC, 0xDD, 0xEE, 0x02] };
    assert_eq!(BDAddr::from(&mac_address).into_inner(), [0xAA, 0xBB, 0xCC, 0xDD, 0xEE, 0x02]);
    assert_eq!(BDAddr::from(&mac_address), BDAddr::from([0xAA, 0xBB, 0xCC, 0xDD, 0xEE, 0x02]));
}

#[test]
fn addresses_are_equal_when_all_octets_are() {
    let address = BDAddr::from([1, 2, 3, 4, 5, 6]);
    assert_eq!(address, BDAddr::from([1, 2, 3, 4, 5, 6]));
    assert!(address == address);
}

#[test]
fn addresses_differ_when_any_octet_does() {
    let octets = [1u8, 2, 3, 4, 5, 6];
    for position in 0..6 {
        let mut changed = octets;
        changed[position] ^= 0x80;
        assert_ne!(BDAddr::from(octets), BDAddr::from(changed));
    }
}

#[test]
fn equal_addresses_hash_alike() {
    let mut seen = HashSet::new();
    assert!(seen.insert(BDAddr::from([9, 8, 7, 6, 5, 4])));
    assert!(!seen.insert(BDAddr::from([9, 8, 7, 6, 5, 4])));
    assert!(seen.insert(BDAddr::from([9, 8, 7, 6, 5, 5])));
    assert_eq!(seen.len(), 2);
}

#[test]
fn events_about_different_addresses_differ() {
    let here = BDAddr::from([1, 1, 1, 1, 1, 1]);
    let there = BDAddr::from([2, 2, 2, 2, 2, 2]);
    assert_ne!(CentralEvent::DeviceDiscovered(here), CentralEvent::DeviceDiscovered(there));
    assert_ne!(CentralEvent::DeviceConnected(here), CentralEvent::DeviceDisconnected(here));
    assert_eq!(CentralEvent::DeviceUpdated(there), CentralEvent::DeviceUpdated(there));
}

#[test]
fn session_failure_becomes_other_with_its_message() {
    let failure = BluetoothError { message: "No Bluetooth adapters found.".to_string() };
    assert_eq!(Error::from(failure), Error::Other("No Bluetooth adapters found.".to_string()));
}

#[test]
fn session_failure_with_empty_message_becomes_other() {
    let failure = BluetoothError { message: String::new() };
    assert_eq!(Error::from(failure), Error::Other(String::new()));
    assert_ne!(Error::Other(String::new()), Error::DeviceNotFound);
}
