//! The central's view of one local radio.

use crate::api::BDAddr;
use crate::bluez::peripheral::Peripheral;
use crate::bluez::session::{AdapterId, BluetoothError, DeviceInfo, DeviceInfoView};
use crate::error::{Error, ErrorView};
use vstd::prelude::*;

verus! {

/// One local radio, reached through a session of type `S`.
///
/// An adapter is a handle and keeps no state. The session does the work:
/// each method below takes what the session answered and says what the
/// central makes of it. Handles are cloned freely, those of one session all
/// stand for that session.
#[derive(Clone, Debug)]
pub struct Adapter<S> {
    session: S,
    adapter: AdapterId,
}

/// An [`Adapter`] as contracts see it.
pub struct AdapterView<S> {
    pub session: S,
    pub adapter: Seq<char>,
}

impl<S> View for Adapter<S> {
    type V = AdapterView<S>;

    closed spec fn view(&self) -> AdapterView<S> {
        AdapterView { session: self.session, adapter: self.adapter@ }
    }
}

/// The devices of a list, each as the model sees it.
pub open spec fn device_views(devices: Seq<DeviceInfo>) -> Seq<DeviceInfoView> {
    devices.map_values(|device: DeviceInfo| device@)
}

/// Whether some device of the list has the address.
pub open spec fn knows(devices: Seq<DeviceInfoView>, address: Seq<u8>) -> bool {
    exists|index: int| 0 <= index < devices.len() && #[trigger] devices[index].mac_address == address
}

/// Whether the device at `index` is the first of the list that has the
/// address.
pub open spec fn is_first_with(devices: Seq<DeviceInfoView>, address: Seq<u8>, index: int) -> bool {
    &&& 0 <= index < devices.len()
    &&& devices[index].mac_address == address
    &&& forall|earlier: int| 0 <= earlier < index ==> #[trigger] devices[earlier].mac_address != address
}

impl<S: Clone> Adapter<S> {
    pub fn new(session: S, adapter: AdapterId) -> (made: Self)
        ensures
            made@.session == session,
            made@.adapter == adapter@,
    {
        Adapter { session, adapter }
    }

    /// The session that serves this adapter.
    pub fn session(&self) -> (session: &S)
        ensures
            *session == self@.session,
    {
        &self.session
    }

    /// The session's name for this radio.
    pub fn adapter(&self) -> (adapter: &AdapterId)
        ensures
            adapter@ == self@.adapter,
    {
        &self.adapter
    }

    /// The peripheral with the given address, from the session's answer to a
    /// request for all its devices. Of several devices with that address the
    /// first in the list is taken.
    pub fn peripheral(
        &self,
        listing: Result<Vec<DeviceInfo>, BluetoothError>,
        address: BDAddr,
    ) -> (found: Result<Peripheral<S>, Error>)
        ensures
            listing matches Ok(devices) ==> (found is Ok <==> knows(device_views(devices@), address@)),
            match listing {
                Ok(devices) => match found {
                    Ok(peripheral) => exists|index: int|
                        {
                            &&& #[trigger] is_first_with(device_views(devices@), address@, index)
                            &&& peripheral@.device == devices@[index]@
                            &&& cloned(self@.session, peripheral@.session)
                        },
                    Err(error) => error@ == ErrorView::DeviceNotFound && !knows(
                        device_views(devices@),
                        address@,
                    ),
                },
                Err(failure) => found matches Err(error) && error@ == ErrorView::Other(failure@),
            },
    {
        let devices = match listing {
            Ok(devices) => devices,
            Err(failure) => {
                return Err(Error::from(failure));
            },
        };
        let ghost listed = devices@;
        for device in remaining: devices
            invariant
                listing matches Ok(devices) && devices@ == listed,
                remaining.seq() == listed,
                forall|earlier: int|
                    0 <= earlier < remaining.index() ==> #[trigger] device_views(
                        listed,
                    )[earlier].mac_address != address@,
        {
            if BDAddr::from(&device.mac_address) == address {
                let peripheral = Peripheral::new(self.session.clone(), device);
                assert(is_first_with(device_views(listed), address@, remaining.index()));
                return Ok(peripheral);
            }
        }
        Err(Error::DeviceNotFound)
    }

    /// Every device of the session's answer to a request for all its
    /// devices, as a peripheral on this adapter's session, in the order of
    /// the answer.
    pub fn peripherals(&self, listing: Result<Vec<DeviceInfo>, BluetoothError>) -> (all: Result<
        Vec<Peripheral<S>>,
        Error,
    >)
        ensures
            match listing {
                Ok(devices) => {
                    &&& all matches Ok(peripherals)
                    &&& peripherals@.len() == devices@.len()
                    &&& forall|index: int|
                        0 <= index < devices@.len() ==> {
                            &&& (#[trigger] peripherals@[index])@.device == devices@[index]@
                            &&& cloned(self@.session, peripherals@[index]@.session)
                        }
                },
                Err(failure) => all matches Err(error) && error@ == ErrorView::Other(failure@),
            },
    {
        let devices = match listing {
            Ok(devices) => devices,
            Err(failure) => {
                return Err(Error::from(failure));
            },
        };
        let ghost listed = devices@;
        let mut peripherals: Vec<Peripheral<S>> = Vec::new();
        for device in remaining: devices
            invariant
                remaining.seq() == listed,
                peripherals@.len() == remaining.index(),
                forall|index: int|
                    0 <= index < remaining.index() ==> {
                        &&& (#[trigger] peripherals@[index])@.device == listed[index]@
                        &&& cloned(self@.session, peripherals@[index]@.session)
                    },
        {
            peripherals.push(Peripheral::new(self.session.clone(), device));
        }
        Ok(peripherals)
    }

    /// What the caller gets of a request to the session to start scanning.
    pub fn start_scan(&self, started: Result<(), BluetoothError>) -> (outcome: Result<(), Error>)
        ensures
            match started {
                Ok(_) => outcome is Ok,
                Err(failure) => outcome matches Err(error) && error@ == ErrorView::Other(failure@),
            },
    {
        match started {
            Ok(_) => Ok(()),
            Err(failure) => Err(Error::from(failure)),
        }
    }

    /// What the caller gets of a request to the session to stop scanning.
    pub fn stop_scan(&self, stopped: Result<(), BluetoothError>) -> (outcome: Result<(), Error>)
        ensures
            match stopped {
                Ok(_) => outcome is Ok,
                Err(failure) => outcome matches Err(error) && error@ == ErrorView::Other(failure@),
            },
    {
        match stopped {
            Ok(_) => Ok(()),
            Err(failure) => Err(Error::from(failure)),
        }
    }

    /// What the caller gets of a request to the session for its stream of
    /// notifications: the stream, with a handle to the session for the
    /// lookups that translating it takes. The only failure is that of the
    /// request itself.
    pub fn events<R>(&self, subscribed: Result<R, BluetoothError>) -> (outcome: Result<
        (R, S),
        Error,
    >)
        ensures
            match subscribed {
                Ok(raw) => {
                    &&& outcome matches Ok((stream, session))
                    &&& stream == raw
                    &&& cloned(self@.session, session)
                },
                Err(failure) => outcome matches Err(error) && error@ == ErrorView::Other(failure@),
            },
    {
        match subscribed {
            Ok(raw) => Ok((raw, self.session.clone())),
            Err(failure) => Err(Error::from(failure)),
        }
    }
}

} // verus!
