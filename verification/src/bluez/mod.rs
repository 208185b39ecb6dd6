//! The central on top of a BlueZ session.

pub mod adapter;
pub mod peripheral;
pub mod session;
pub mod translate;
