//! The GPIO module.
use crate::device::Device;
use crate::driver::Driver;
use vstd::prelude::*;

verus! {

/// Marks a device type as one whose chip has the GPIO module. The module
/// needs no constant of the device.
pub trait GpioModule<D: Driver>: Device<D> {
}

} // verus!
