use vstd::prelude::*;

/// Filter on device addresses.
pub mod address;
/// Battery level and firmware version read from the device.
pub mod device;
/// Errors of the driver.
pub mod error;
/// Decoding of real-time sensor frames.
pub mod frame;
/// Characteristic UUIDs and their resolution after service discovery.
pub mod gatt;
/// Bounded-retry connection decisions.
pub mod retry;
/// Streaming session decisions.
pub mod session;

verus! {

} // verus!
