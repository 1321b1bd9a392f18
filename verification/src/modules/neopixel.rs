//! The NeoPixel module.
use crate::device::Device;
use crate::driver::Driver;
use vstd::prelude::*;

verus! {

/// Marks a device type as one whose chip has the NeoPixel module, and fixes
/// what the module has to know of the board.
pub trait NeopixelModule<D: Driver>: Device<D> {
    /// How many LEDs are on the strip.
    const N_LEDS: u16;

    /// The pin that the data line of the strip is wired to.
    const PIN: u8;
}

} // verus!
