//! The platform-neutral core of a Bluetooth Low Energy central.
//!
//! A session with the Bluetooth daemon reports what happens on the radio in
//! terms of its own device identifiers. This crate holds the rules by which
//! such reports become address-keyed [`api::CentralEvent`]s and by which the
//! session's device list answers questions about peripherals. It performs no
//! I/O: whoever drives the session hands each outcome to the functions here.

pub mod api;
pub mod bluez;
pub mod error;
