//! The address of a device and the events a central reports about devices.

use crate::bluez::session::MacAddress;
use vstd::prelude::*;

verus! {

/// The address by which a device is known above the transport. Two addresses
/// are equal exactly when their six octets are.
#[derive(Clone, Copy, Debug, Hash)]
pub struct BDAddr {
    address: [u8; 6],
}

impl View for BDAddr {
    type V = Seq<u8>;

    closed spec fn view(&self) -> Seq<u8> {
        self.address@
    }
}

impl BDAddr {
    /// The six octets of the address.
    pub fn into_inner(self) -> (octets: [u8; 6])
        ensures
            octets@ == self@,
    {
        self.address
    }
}

impl PartialEq for BDAddr {
    fn eq(&self, other: &Self) -> (equal: bool) {
        let mut i: usize = 0;
        while i < 6
            invariant
                i <= 6,
                forall|j: int| 0 <= j < i ==> self.address@[j] == other.address@[j],
            decreases 6 - i,
        {
            if self.address[i] != other.address[i] {
                return false;
            }
            i += 1;
        }
        assert(self.address@ =~= other.address@);
        true
    }
}

impl vstd::std_specs::cmp::PartialEqSpecImpl for BDAddr {
    open spec fn obeys_eq_spec() -> bool {
        true
    }

    open spec fn eq_spec(&self, other: &Self) -> bool {
        self@ == other@
    }
}

impl Eq for BDAddr {

}

impl From<[u8; 6]> for BDAddr {
    fn from(octets: [u8; 6]) -> (address: Self)
        ensures
            address@ == octets@,
    {
        BDAddr { address: octets }
    }
}

impl vstd::std_specs::convert::FromSpecImpl<[u8; 6]> for BDAddr {
    open spec fn obeys_from_spec() -> bool {
        true
    }

    closed spec fn from_spec(octets: [u8; 6]) -> Self {
        BDAddr { address: octets }
    }
}

impl<'a> From<&'a MacAddress> for BDAddr {
    fn from(mac_address: &'a MacAddress) -> (address: Self)
        ensures
            address@ == mac_address@,
    {
        BDAddr { address: mac_address.octets }
    }
}

impl<'a> vstd::std_specs::convert::FromSpecImpl<&'a MacAddress> for BDAddr {
    open spec fn obeys_from_spec() -> bool {
        true
    }

    closed spec fn from_spec(mac_address: &'a MacAddress) -> Self {
        BDAddr { address: mac_address.octets }
    }
}

/// What a central reports about the devices around it. Each event names its
/// device by address and stands on its own.
#[derive(Clone, Debug, PartialEq, Eq)]
pub enum CentralEvent {
    DeviceDiscovered(BDAddr),
    DeviceConnected(BDAddr),
    DeviceDisconnected(BDAddr),
    DeviceUpdated(BDAddr),
    ManufacturerDataAdvertisement { address: BDAddr, manufacturer_id: u16, data: Vec<u8> },
}

/// A [`CentralEvent`] as contracts see it: addresses and payloads as
/// sequences of octets.
pub enum CentralEventView {
    DeviceDiscovered(Seq<u8>),
    DeviceConnected(Seq<u8>),
    DeviceDisconnected(Seq<u8>),
    DeviceUpdated(Seq<u8>),
    ManufacturerDataAdvertisement { address: Seq<u8>, manufacturer_id: u16, data: Seq<u8> },
}

impl View for CentralEvent {
    type V = CentralEventView;

    open spec fn view(&self) -> CentralEventView {
        match self {
            CentralEvent::DeviceDiscovered(address) => CentralEventView::DeviceDiscovered(address@),
            CentralEvent::DeviceConnected(address) => CentralEventView::DeviceConnected(address@),
            CentralEvent::DeviceDisconnected(address) => CentralEventView::DeviceDisconnected(
                address@,
            ),
            CentralEvent::DeviceUpdated(address) => CentralEventView::DeviceUpdated(address@),
            CentralEvent::ManufacturerDataAdvertisement {
                address,
                manufacturer_id,
                data,
            } => CentralEventView::ManufacturerDataAdvertisement {
                address: address@,
                manufacturer_id: *manufacturer_id,
                data: data@,
            },
        }
    }
}

} // verus!
