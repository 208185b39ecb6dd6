//! What a session with the Bluetooth daemon hands out, as plain values.
//!
//! The session itself (the connection to the daemon, its calls and its
//! stream of notifications) lives outside this crate. Whoever drives it
//! writes what it returned into the types below.

use std::collections::HashMap;
use vstd::prelude::*;

verus! {

/// The hardware address of a device as the session reports it: six octets,
/// in the order in which they are written.
#[derive(Clone, Copy, Debug, PartialEq, Eq)]
pub struct MacAddress {
    pub octets: [u8; 6],
}

impl View for MacAddress {
    type V = Seq<u8>;

    open spec fn view(&self) -> Seq<u8> {
        self.octets@
    }
}

/// The session's own name for a device. It means something to the session
/// that issued it and to nobody else.
#[derive(Clone, Debug, PartialEq, Eq)]
pub struct DeviceId {
    pub name: String,
}

impl View for DeviceId {
    type V = Seq<char>;

    open spec fn view(&self) -> Seq<char> {
        self.name@
    }
}

/// The session's name for a local radio.
#[derive(Clone, Debug, PartialEq, Eq)]
pub struct AdapterId {
    pub name: String,
}

impl View for AdapterId {
    type V = Seq<char>;

    open spec fn view(&self) -> Seq<char> {
        self.name@
    }
}

/// What the session knows of one device at the moment it is asked.
#[derive(Clone, Debug, PartialEq, Eq)]
pub struct DeviceInfo {
    pub id: DeviceId,
    pub mac_address: MacAddress,
}

/// A [`DeviceInfo`] as contracts see it.
pub struct DeviceInfoView {
    pub id: Seq<char>,
    pub mac_address: Seq<u8>,
}

impl View for DeviceInfo {
    type V = DeviceInfoView;

    open spec fn view(&self) -> DeviceInfoView {
        DeviceInfoView { id: self.id@, mac_address: self.mac_address@ }
    }
}

/// A failure of a call to the session, reduced to its message.
#[derive(Clone, Debug, PartialEq, Eq)]
pub struct BluetoothError {
    pub message: String,
}

impl View for BluetoothError {
    type V = Seq<char>;

    open spec fn view(&self) -> Seq<char> {
        self.message@
    }
}

/// The manufacturer-specific data of an advertisement as a mathematical map
/// from manufacturer identifier to payload.
pub open spec fn manufacturer_data_view(manufacturer_data: HashMap<u16, Vec<u8>>) -> Map<
    u16,
    Seq<u8>,
> {
    manufacturer_data@.map_values(|data: Vec<u8>| data@)
}

/// What a notification says of a device.
#[derive(Clone, Debug, PartialEq, Eq)]
pub enum DeviceEvent {
    /// The device was seen for the first time.
    Discovered,
    /// The device connected or disconnected.
    Connected { connected: bool },
    /// A new signal strength was measured.
    Rssi { rssi: i16 },
    /// The manufacturer-specific part of the advertisement changed. The keys
    /// are manufacturer identifiers.
    ManufacturerData { manufacturer_data: HashMap<u16, Vec<u8>> },
    /// Anything else the session may say of a device.
    Other,
}

/// A [`DeviceEvent`] as contracts see it.
pub enum DeviceEventView {
    Discovered,
    Connected { connected: bool },
    Rssi { rssi: i16 },
    ManufacturerData { manufacturer_data: Map<u16, Seq<u8>> },
    Other,
}

impl View for DeviceEvent {
    type V = DeviceEventView;

    open spec fn view(&self) -> DeviceEventView {
        match self {
            DeviceEvent::Discovered => DeviceEventView::Discovered,
            DeviceEvent::Connected { connected } => DeviceEventView::Connected {
                connected: *connected,
            },
            DeviceEvent::Rssi { rssi } => DeviceEventView::Rssi { rssi: *rssi },
            DeviceEvent::ManufacturerData { manufacturer_data } => DeviceEventView::ManufacturerData {
                manufacturer_data: manufacturer_data_view(*manufacturer_data),
            },
            DeviceEvent::Other => DeviceEventView::Other,
        }
    }
}

/// One notification from the session's stream.
#[derive(Clone, Debug, PartialEq, Eq)]
pub enum BluetoothEvent {
    /// Something happened to a local radio.
    Adapter,
    /// Something happened to the device that the session calls `id`.
    Device { id: DeviceId, event: DeviceEvent },
    /// Something happened to a characteristic of a device.
    Characteristic,
}

/// A [`BluetoothEvent`] as contracts see it.
pub enum BluetoothEventView {
    Adapter,
    Device { id: Seq<char>, event: DeviceEventView },
    Characteristic,
}

impl View for BluetoothEvent {
    type V = BluetoothEventView;

    open spec fn view(&self) -> BluetoothEventView {
        match self {
            BluetoothEvent::Adapter => BluetoothEventView::Adapter,
            BluetoothEvent::Device { id, event } => BluetoothEventView::Device {
                id: id@,
                event: event@,
            },
            BluetoothEvent::Characteristic => BluetoothEventView::Characteristic,
        }
    }
}

} // verus!
