//! From the session's notifications to the central's events.
//!
//! A notification names its device by the session's identifier. The central's
//! events name it by address, which only the session can supply. So one
//! notification is translated in two steps: [`lookup_target`] says which
//! device, if any, the session must be asked about, and [`central_event`]
//! turns the notification and the answer into at most one event.

use crate::api::{BDAddr, CentralEvent, CentralEventView};
use crate::bluez::session::{
    manufacturer_data_view, BluetoothEvent, BluetoothEventView, DeviceEvent, DeviceEventView,
    DeviceId, DeviceInfo, DeviceInfoView,
};
use std::collections::HashMap;
use vstd::prelude::*;
use vstd::std_specs::iter::IteratorSpec;

verus! {

broadcast use vstd::std_specs::hash::group_hash_axioms;

/// The view of what is inside `value`, if anything is.
pub open spec fn option_view<T: View>(value: Option<T>) -> Option<T::V> {
    match value {
        Some(inner) => Some(inner@),
        None => None,
    }
}

/// The device that the session must be asked about before `event` can be
/// translated: the one a notification speaks of, where the notification is
/// of a kind that has a translation. Nothing is asked for an empty set of
/// manufacturer data, nor for a notification of any other kind.
pub open spec fn lookup_of(event: BluetoothEventView) -> Option<Seq<char>> {
    match event {
        BluetoothEventView::Device { id, event } => match event {
            DeviceEventView::Discovered => Some(id),
            DeviceEventView::Connected { .. } => Some(id),
            DeviceEventView::Rssi { .. } => Some(id),
            DeviceEventView::ManufacturerData { manufacturer_data } => if manufacturer_data.dom().is_empty() {
                None
            } else {
                Some(id)
            },
            DeviceEventView::Other => None,
        },
        _ => None,
    }
}

/// Whether `translated` is an advertisement, by the device at `address`, of
/// one entry of `manufacturer_data`; or nothing, where there is no entry.
pub open spec fn advertises(
    manufacturer_data: Map<u16, Seq<u8>>,
    address: Seq<u8>,
    translated: Option<CentralEventView>,
) -> bool {
    match translated {
        Some(
            CentralEventView::ManufacturerDataAdvertisement { address: sender, manufacturer_id, data },
        ) => {
            &&& sender == address
            &&& manufacturer_data.contains_key(manufacturer_id)
            &&& manufacturer_data[manufacturer_id] == data
        },
        Some(_) => false,
        None => manufacturer_data.dom().is_empty(),
    }
}

/// Whether `translated` is what comes of `event` when the session answered
/// the lookup with `device` (`None`: it did not answer, or was not asked).
///
/// Without the device there is no address, so nothing comes of the
/// notification. With it, a discovery, a change of connection, a change of
/// signal strength and a change of manufacturer data each give the one
/// event that carries the device's address. Nothing comes of anything else.
pub open spec fn translates_to(
    event: BluetoothEventView,
    device: Option<DeviceInfoView>,
    translated: Option<CentralEventView>,
) -> bool {
    match (event, device) {
        (BluetoothEventView::Device { event, .. }, Some(device)) => match event {
            DeviceEventView::Discovered => translated == Some(
                CentralEventView::DeviceDiscovered(device.mac_address),
            ),
            DeviceEventView::Connected { connected } => translated == Some(
                if connected {
                    CentralEventView::DeviceConnected(device.mac_address)
                } else {
                    CentralEventView::DeviceDisconnected(device.mac_address)
                },
            ),
            DeviceEventView::Rssi { .. } => translated == Some(
                CentralEventView::DeviceUpdated(device.mac_address),
            ),
            DeviceEventView::ManufacturerData { manufacturer_data } => advertises(
                manufacturer_data,
                device.mac_address,
                translated,
            ),
            DeviceEventView::Other => translated is None,
        },
        _ => translated is None,
    }
}

/// Whether `entry` may be taken as the leading entry of `manufacturer_data`:
/// nothing of an empty map, and any one of its entries otherwise.
pub open spec fn is_leading_entry(
    manufacturer_data: Map<u16, Seq<u8>>,
    entry: Option<(u16, Seq<u8>)>,
) -> bool {
    match entry {
        Some((manufacturer_id, data)) => manufacturer_data.contains_key(manufacturer_id)
            && manufacturer_data[manufacturer_id] == data,
        None => manufacturer_data.dom().is_empty(),
    }
}

/// The entry that a walk of `manufacturer_data` meets first. Which one that
/// is among several is left to the map.
pub fn first_entry(manufacturer_data: &HashMap<u16, Vec<u8>>) -> (entry: Option<(u16, Vec<u8>)>)
    ensures
        is_leading_entry(
            manufacturer_data_view(*manufacturer_data),
            match entry {
                Some((manufacturer_id, data)) => Some((manufacturer_id, data@)),
                None => None,
            },
        ),
{
    // The walk ends at the first entry it meets.
    for (manufacturer_id, data) in entries: manufacturer_data.iter()
        invariant
            entries.index() == 0,
    {
        return Some((*manufacturer_id, data.clone()));
    }
    None
}

/// The advertisement of `entry` by the device at `address`.
pub fn advertisement(address: BDAddr, entry: Option<(u16, Vec<u8>)>) -> (translated: Option<
    CentralEvent,
>)
    ensures
        option_view(translated) == match entry {
            Some((manufacturer_id, data)) => Some(
                CentralEventView::ManufacturerDataAdvertisement {
                    address: address@,
                    manufacturer_id,
                    data: data@,
                },
            ),
            None => None,
        },
{
    match entry {
        Some((manufacturer_id, data)) => Some(
            CentralEvent::ManufacturerDataAdvertisement { address, manufacturer_id, data },
        ),
        None => None,
    }
}

/// The device, if any, that the session must be asked about before `event`
/// can be translated.
pub fn lookup_target(event: &BluetoothEvent) -> (target: Option<&DeviceId>)
    ensures
        option_view(target) == lookup_of(event@),
{
    match event {
        BluetoothEvent::Device { id, event } => match event {
            DeviceEvent::Discovered => Some(id),
            DeviceEvent::Connected { .. } => Some(id),
            DeviceEvent::Rssi { .. } => Some(id),
            DeviceEvent::ManufacturerData { manufacturer_data } => {
                if manufacturer_data.is_empty() {
                    None
                } else {
                    Some(id)
                }
            },
            DeviceEvent::Other => None,
        },
        _ => None,
    }
}

/// Translates one notification, given the session's answer to the lookup
/// that [`lookup_target`] called for: `None` where the lookup failed or none
/// was made.
pub fn central_event(event: BluetoothEvent, device: Option<DeviceInfo>) -> (translated: Option<
    CentralEvent,
>)
    ensures
        translates_to(event@, option_view(device), option_view(translated)),
{
    match event {
        BluetoothEvent::Device { id: _, event: DeviceEvent::Discovered } => {
            let device = device?;
            Some(CentralEvent::DeviceDiscovered(BDAddr::from(&device.mac_address)))
        },
        BluetoothEvent::Device { id: _, event: DeviceEvent::Connected { connected } } => {
            let device = device?;
            if connected {
                Some(CentralEvent::DeviceConnected(BDAddr::from(&device.mac_address)))
            } else {
                Some(CentralEvent::DeviceDisconnected(BDAddr::from(&device.mac_address)))
            }
        },
        BluetoothEvent::Device { id: _, event: DeviceEvent::Rssi { rssi: _ } } => {
            let device = device?;
            Some(CentralEvent::DeviceUpdated(BDAddr::from(&device.mac_address)))
        },
        BluetoothEvent::Device {
            id: _,
            event: DeviceEvent::ManufacturerData { manufacturer_data },
        } => {
            let device = device?;
            let entry = first_entry(&manufacturer_data);
            advertisement(BDAddr::from(&device.mac_address), entry)
        },
        _ => None,
    }
}

/// Whether the translation of `event` passes over entries of its
/// manufacturer data: the device was found and the notification holds more
/// than the one entry that is advertised.
pub open spec fn discards(event: BluetoothEventView, device: Option<DeviceInfoView>) -> bool {
    &&& device is Some
    &&& event matches BluetoothEventView::Device {
        event: DeviceEventView::ManufacturerData { manufacturer_data },
        ..
    }
    &&& manufacturer_data.dom().len() > 1
}

/// Whether [`central_event`] passes over entries of the manufacturer data of
/// `event`, which is worth a warning in the log.
pub fn discards_manufacturer_data(event: &BluetoothEvent, device: Option<&DeviceInfo>) -> (warn:
    bool)
    ensures
        warn == discards(event@, option_view(device)),
{
    match event {
        BluetoothEvent::Device { id: _, event: DeviceEvent::ManufacturerData { manufacturer_data } } => {
            assert(manufacturer_data_view(*manufacturer_data).dom() =~= manufacturer_data@.dom());
            device.is_some() && manufacturer_data.len() > 1
        },
        _ => false,
    }
}

/// A discovery whose device the session found gives exactly the discovery of
/// that device's address.
pub proof fn discovery_carries_device_address(
    id: Seq<char>,
    device: DeviceInfoView,
    translated: Option<CentralEventView>,
)
    requires
        translates_to(
            BluetoothEventView::Device { id, event: DeviceEventView::Discovered },
            Some(device),
            translated,
        ),
    ensures
        translated == Some(CentralEventView::DeviceDiscovered(device.mac_address)),
{
}

/// Nothing comes of a notification whose device the session did not find,
/// whatever the notification says.
pub proof fn nothing_without_device(
    event: BluetoothEventView,
    translated: Option<CentralEventView>,
)
    requires
        translates_to(event, None, translated),
    ensures
        translated is None,
{
}

/// Nothing comes of a notification for which no lookup is called for,
/// whatever is handed over as the session's answer.
pub proof fn nothing_without_lookup(
    event: BluetoothEventView,
    device: Option<DeviceInfoView>,
    translated: Option<CentralEventView>,
)
    requires
        lookup_of(event) is None,
        translates_to(event, device, translated),
    ensures
        translated is None,
{
}

/// A change of connection gives a connection where the flag is set and a
/// disconnection where it is not, each with the device's address, and never
/// an event of another kind.
pub proof fn connection_follows_flag(
    id: Seq<char>,
    connected: bool,
    device: Option<DeviceInfoView>,
    translated: Option<CentralEventView>,
)
    requires
        translates_to(
            BluetoothEventView::Device { id, event: DeviceEventView::Connected { connected } },
            device,
            translated,
        ),
    ensures
        translated is Some <==> device is Some,
        device is Some && connected ==> translated == Some(
            CentralEventView::DeviceConnected(device->0.mac_address),
        ),
        device is Some && !connected ==> translated == Some(
            CentralEventView::DeviceDisconnected(device->0.mac_address),
        ),
        translated matches Some(event) ==> event is DeviceConnected || event is DeviceDisconnected,
{
}

/// A change of manufacturer data gives nothing where the data is empty.
/// Where it is not, and the device was found, it gives one advertisement,
/// which holds the device's address and one entry of the data.
pub proof fn manufacturer_data_gives_one_entry(
    id: Seq<char>,
    manufacturer_data: Map<u16, Seq<u8>>,
    device: DeviceInfoView,
    translated: Option<CentralEventView>,
)
    requires
        translates_to(
            BluetoothEventView::Device {
                id,
                event: DeviceEventView::ManufacturerData { manufacturer_data },
            },
            Some(device),
            translated,
        ),
    ensures
        translated is None <==> manufacturer_data.dom().is_empty(),
        translated matches Some(event) ==> {
            &&& event matches CentralEventView::ManufacturerDataAdvertisement {
                address,
                manufacturer_id,
                data,
            }
            &&& address == device.mac_address
            &&& manufacturer_data.contains_key(manufacturer_id)
            &&& manufacturer_data[manufacturer_id] == data
        },
{
}

/// Where the manufacturer data holds a single entry, the advertisement is
/// of that entry.
pub proof fn single_entry_is_advertised(
    id: Seq<char>,
    manufacturer_id: u16,
    data: Seq<u8>,
    device: DeviceInfoView,
    translated: Option<CentralEventView>,
)
    requires
        translates_to(
            BluetoothEventView::Device {
                id,
                event: DeviceEventView::ManufacturerData {
                    manufacturer_data: Map::empty().insert(manufacturer_id, data),
                },
            },
            Some(device),
            translated,
        ),
    ensures
        translated == Some(
            CentralEventView::ManufacturerDataAdvertisement {
                address: device.mac_address,
                manufacturer_id,
                data,
            },
        ),
{
    let manufacturer_data = Map::<u16, Seq<u8>>::empty().insert(manufacturer_id, data);
    assert(manufacturer_data.dom().contains(manufacturer_id));
}

} // verus!
