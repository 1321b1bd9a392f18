//! The rotary encoder module.
use crate::device::Device;
use crate::driver::Driver;
use vstd::prelude::*;

verus! {

/// Marks a device type as one whose chip has the encoder module, and fixes
/// what the module has to know of the board.
pub trait EncoderModule<D: Driver>: Device<D> {
    /// The pin that the push button of the encoder is wired to.
    const ENCODER_BTN_PIN: u8;
}

} // verus!
