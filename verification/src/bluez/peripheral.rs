//! A device as the central hands it out.

use crate::api::BDAddr;
use crate::bluez::session::{DeviceInfo, DeviceInfoView};
use vstd::prelude::*;

verus! {

/// A device known to the session, together with a handle to that session.
/// What the session knew of the device when the peripheral was made is kept
/// as it was; nothing here follows the device afterwards.
#[derive(Clone, Debug)]
pub struct Peripheral<S> {
    session: S,
    device: DeviceInfo,
}

/// A [`Peripheral`] as contracts see it.
pub struct PeripheralView<S> {
    pub session: S,
    pub device: DeviceInfoView,
}

impl<S> View for Peripheral<S> {
    type V = PeripheralView<S>;

    closed spec fn view(&self) -> PeripheralView<S> {
        PeripheralView { session: self.session, device: self.device@ }
    }
}

impl<S> Peripheral<S> {
    pub fn new(session: S, device: DeviceInfo) -> (peripheral: Self)
        ensures
            peripheral@.session == session,
            peripheral@.device == device@,
    {
        Peripheral { session, device }
    }

    /// The session through which the device is reached.
    pub fn session(&self) -> (session: &S)
        ensures
            *session == self@.session,
    {
        &self.session
    }

    /// What the session knew of the device.
    pub fn device(&self) -> (device: &DeviceInfo)
        ensures
            device@ == self@.device,
    {
        &self.device
    }

    /// The address of the device.
    pub fn address(&self) -> (address: BDAddr)
        ensures
            address@ == self@.device.mac_address,
    {
        BDAddr::from(&self.device.mac_address)
    }
}

} // verus!
