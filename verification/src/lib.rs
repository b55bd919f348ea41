//! Verified core of a Bluetooth LE bridge for a game engine: the scan state
//! machine of the adapter object, the connection and subscription state of a
//! device object, and the store that keeps the latest notification bytes per
//! characteristic.
use vstd::prelude::*;

pub mod ble_device;
pub mod gdble;
pub mod laws;
pub mod notifications;

verus! {
} // verus!
