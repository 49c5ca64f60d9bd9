//! Enumerations that describe a device.

use vstd::prelude::*;

verus! {

/// Which of its functions a GPU offers.
#[derive(Clone, Copy, Debug, PartialEq, Eq, Structural, Hash)]
pub enum OperationMode {
    /// Everything is on, graphics and high-rate double precision included.
    AllOn,
    /// Compute only: graphics is off.
    Compute,
    /// Graphics is on, and double precision runs at a low rate.
    LowDP,
}

/// How the operating system drives the device.
#[derive(Clone, Copy, Debug, PartialEq, Eq, Structural, Hash)]
pub enum DriverModel {
    /// The GPU is treated as a display device.
    WDDM,
    /// The GPU is treated as a generic device.
    WDM,
}

} // verus!
