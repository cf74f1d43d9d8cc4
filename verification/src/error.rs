//! The ways in which a connection attempt ends without a sensor.

use vstd::prelude::*;

verus! {

/// Why no sensor was connected.
#[derive(Debug, Clone, PartialEq, Eq)]
pub enum Error {
    /// The Bluetooth stack reported a failure; the text is its cause.
    Ble(String),
    /// No adapter stands at the configured index.
    NoMatchingAdaptor(usize),
    /// The search ended before any device matched the name.
    NoDeviceFound,
    /// A device matched, but it was not connected after the connect attempt.
    ConnectFailed,
    /// The device was connected, but it listed no services.
    NoServicesFound,
}

} // verus!
