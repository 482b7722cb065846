//! The devices of a Hive account.

use vstd::prelude::*;

verus! {

/// The type of power source used by a device.
#[derive(Debug, Clone, Copy, PartialEq, Eq, Structural)]
pub enum PowerType {
    /// The device is powered by an internal battery.
    Battery,
    /// The device is connected directly to the mains power supply.
    Mains,
}

} // verus!
