//! What can go wrong for a caller of the central.

use crate::bluez::session::BluetoothError;
use vstd::prelude::*;

verus! {

/// The failures a central reports.
#[derive(Clone, Debug, PartialEq, Eq)]
pub enum Error {
    /// No known device has the address that was asked for.
    DeviceNotFound,
    /// The session failed; the message is the session's own.
    Other(String),
}

/// An [`Error`] as contracts see it.
pub enum ErrorView {
    DeviceNotFound,
    Other(Seq<char>),
}

impl View for Error {
    type V = ErrorView;

    open spec fn view(&self) -> ErrorView {
        match self {
            Error::DeviceNotFound => ErrorView::DeviceNotFound,
            Error::Other(message) => ErrorView::Other(message@),
        }
    }
}

impl From<BluetoothError> for Error {
    /// Every failure of the session becomes `Other`, with its message kept
    /// as it is.
    fn from(error: BluetoothError) -> (wrapped: Self) {
        Error::Other(error.message)
    }
}

impl vstd::std_specs::convert::FromSpecImpl<BluetoothError> for Error {
    open spec fn obeys_from_spec() -> bool {
        true
    }

    open spec fn from_spec(error: BluetoothError) -> Self {
        Error::Other(error.message)
    }
}

} // verus!
