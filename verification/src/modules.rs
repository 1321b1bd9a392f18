//! The functional modules of the chip. Each module is known by a one-byte
//! identifier, which is also the position of its bit in the capability word.
use vstd::prelude::*;

pub mod encoder;
pub mod gpio;
pub mod neopixel;
pub mod status;

verus! {

/// The hardware identifier that a SAMD09-based chip reports.
pub const SEESAW_HW_ID: u8 = 0x55;

pub const STATUS_MODULE_ID: u8 = 0x00;

pub const GPIO_MODULE_ID: u8 = 0x01;

pub const SERCOM0_MODULE_ID: u8 = 0x02;

pub const TIMER_MODULE_ID: u8 = 0x08;

pub const ADC_MODULE_ID: u8 = 0x09;

pub const DAC_MODULE_ID: u8 = 0x0A;

pub const INTERRUPT_MODULE_ID: u8 = 0x0B;

pub const DAP_MODULE_ID: u8 = 0x0C;

pub const EEPROM_MODULE_ID: u8 = 0x0D;

pub const NEOPIXEL_MODULE_ID: u8 = 0x0E;

pub const TOUCH_MODULE_ID: u8 = 0x0F;

pub const KEYPAD_MODULE_ID: u8 = 0x10;

pub const ENCODER_MODULE_ID: u8 = 0x11;

pub const SPECTRUM_MODULE_ID: u8 = 0x12;

/// Whether `id` is the identifier of one of the modules above.
pub open spec fn is_known_module(id: u8) -> bool {
    ||| id == STATUS_MODULE_ID
    ||| id == GPIO_MODULE_ID
    ||| id == SERCOM0_MODULE_ID
    ||| id == TIMER_MODULE_ID
    ||| id == ADC_MODULE_ID
    ||| id == DAC_MODULE_ID
    ||| id == INTERRUPT_MODULE_ID
    ||| id == DAP_MODULE_ID
    ||| id == EEPROM_MODULE_ID
    ||| id == NEOPIXEL_MODULE_ID
    ||| id == TOUCH_MODULE_ID
    ||| id == KEYPAD_MODULE_ID
    ||| id == ENCODER_MODULE_ID
    ||| id == SPECTRUM_MODULE_ID
}

} // verus!
