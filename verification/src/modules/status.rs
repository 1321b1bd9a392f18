//! The status module: what the chip says about itself.
use super::{
    ADC_MODULE_ID, DAC_MODULE_ID, DAP_MODULE_ID, EEPROM_MODULE_ID, ENCODER_MODULE_ID,
    GPIO_MODULE_ID, INTERRUPT_MODULE_ID, KEYPAD_MODULE_ID, NEOPIXEL_MODULE_ID,
    SERCOM0_MODULE_ID, SPECTRUM_MODULE_ID, STATUS_MODULE_ID, TIMER_MODULE_ID, TOUCH_MODULE_ID,
};
use super::{is_known_module, SEESAW_HW_ID};
use crate::device::Device;
use crate::driver::{
    delays, lemma_tally_of_nothing, lemma_tally_of_push, reads, writes, Driver, History, Reg,
    Transaction,
};
use crate::error::{wrapped, SeesawError};
use vstd::arithmetic::power2::pow2;
use vstd::bits::lemma_u32_shr_is_div;
use vstd::prelude::*;

verus! {

/// The register that holds the hardware identifier, one byte.
pub const STATUS_HW_ID: Reg = (STATUS_MODULE_ID, 0x01);

/// The register that holds the version word.
pub const STATUS_VERSION: Reg = (STATUS_MODULE_ID, 0x02);

/// The register that holds the capability word.
pub const STATUS_OPTIONS: Reg = (STATUS_MODULE_ID, 0x03);

/// The register that holds the temperature word.
pub const STATUS_TEMP: Reg = (STATUS_MODULE_ID, 0x04);

/// The register that triggers a software reset when `RESET_COMMAND` is
/// written to it.
pub const STATUS_SWRST: Reg = (STATUS_MODULE_ID, 0x7F);

/// The byte that triggers the software reset.
pub const RESET_COMMAND: u8 = 0xFF;

/// How long the chip is given to reboot after a reset, in microseconds.
pub const RESET_DELAY_US: u32 = 125_000;

/// How long the chip is given to settle before it is asked who it is, in
/// microseconds.
pub const SETTLE_DELAY_US: u32 = 12_500;

/// Whether bit `bit` of `word` is set, bit 0 being the least significant.
pub open spec fn bit_is_set(word: u32, bit: u8) -> bool {
    (word >> bit) & 1 == 1
}

/// A bit of a word is a digit of the word written in base two: bit `bit` is
/// set exactly when the word divided by 2^`bit` is odd.
pub proof fn lemma_bit_is_binary_digit(word: u32, bit: u8)
    requires
        bit < 32,
    ensures
        bit_is_set(word, bit) <==> (word as nat / pow2(bit as nat)) % 2 == 1,
{
    let shifted = word >> bit;
    assert(shifted == word >> (bit as u32));
    lemma_u32_shr_is_div(word, bit as u32);
    assert(shifted & 1 == shifted % 2) by (bit_vector);
}

/// The modules that a chip was built with, one flag for each known module.
#[derive(Copy, Clone, Debug, PartialEq, Eq)]
pub struct DeviceCapabilities {
    pub adc: bool,
    pub dac: bool,
    pub dap: bool,
    pub eeprom: bool,
    pub encoder: bool,
    pub gpio: bool,
    pub interrupt: bool,
    pub keypad: bool,
    pub neopixel: bool,
    pub sercom0: bool,
    pub spectrum: bool,
    pub status: bool,
    pub timer: bool,
    pub touch: bool,
}

impl DeviceCapabilities {
    /// The flag of the module with identifier `module`; `false` for an
    /// identifier that names no module.
    pub open spec fn has(self, module: u8) -> bool {
        if module == ADC_MODULE_ID {
            self.adc
        } else if module == DAC_MODULE_ID {
            self.dac
        } else if module == DAP_MODULE_ID {
            self.dap
        } else if module == EEPROM_MODULE_ID {
            self.eeprom
        } else if module == ENCODER_MODULE_ID {
            self.encoder
        } else if module == GPIO_MODULE_ID {
            self.gpio
        } else if module == INTERRUPT_MODULE_ID {
            self.interrupt
        } else if module == KEYPAD_MODULE_ID {
            self.keypad
        } else if module == NEOPIXEL_MODULE_ID {
            self.neopixel
        } else if module == SERCOM0_MODULE_ID {
            self.sercom0
        } else if module == SPECTRUM_MODULE_ID {
            self.spectrum
        } else if module == STATUS_MODULE_ID {
            self.status
        } else if module == TIMER_MODULE_ID {
            self.timer
        } else if module == TOUCH_MODULE_ID {
            self.touch
        } else {
            false
        }
    }

    /// What the capability word `value` says: each flag is the bit of the
    /// word at the position of the module's own identifier. In particular
    /// `timer` is bit 8 and `status` is bit 0: no two flags share a bit.
    pub open spec fn decode(value: u32) -> Self {
        DeviceCapabilities {
            adc: bit_is_set(value, ADC_MODULE_ID),
            dac: bit_is_set(value, DAC_MODULE_ID),
            dap: bit_is_set(value, DAP_MODULE_ID),
            eeprom: bit_is_set(value, EEPROM_MODULE_ID),
            encoder: bit_is_set(value, ENCODER_MODULE_ID),
            gpio: bit_is_set(value, GPIO_MODULE_ID),
            interrupt: bit_is_set(value, INTERRUPT_MODULE_ID),
            keypad: bit_is_set(value, KEYPAD_MODULE_ID),
            neopixel: bit_is_set(value, NEOPIXEL_MODULE_ID),
            sercom0: bit_is_set(value, SERCOM0_MODULE_ID),
            spectrum: bit_is_set(value, SPECTRUM_MODULE_ID),
            status: bit_is_set(value, STATUS_MODULE_ID),
            timer: bit_is_set(value, TIMER_MODULE_ID),
            touch: bit_is_set(value, TOUCH_MODULE_ID),
        }
    }
}

impl View for DeviceCapabilities {
    type V = Set<u8>;

    /// The identifiers of the modules that are present.
    open spec fn view(&self) -> Set<u8> {
        Set::new(|module: u8| self.has(module))
    }
}

impl vstd::std_specs::convert::FromSpecImpl<u32> for DeviceCapabilities {
    open spec fn obeys_from_spec() -> bool {
        true
    }

    open spec fn from_spec(value: u32) -> Self {
        Self::decode(value)
    }
}

impl From<u32> for DeviceCapabilities {
    /// Decodes the capability word of the chip.
    fn from(value: u32) -> (caps: Self)
        ensures
            caps == Self::decode(value),
    {
        DeviceCapabilities {
            adc: value >> ADC_MODULE_ID & 1 == 1,
            dac: value >> DAC_MODULE_ID & 1 == 1,
            dap: value >> DAP_MODULE_ID & 1 == 1,
            eeprom: value >> EEPROM_MODULE_ID & 1 == 1,
            encoder: value >> ENCODER_MODULE_ID & 1 == 1,
            gpio: value >> GPIO_MODULE_ID & 1 == 1,
            interrupt: value >> INTERRUPT_MODULE_ID & 1 == 1,
            keypad: value >> KEYPAD_MODULE_ID & 1 == 1,
            neopixel: value >> NEOPIXEL_MODULE_ID & 1 == 1,
            sercom0: value >> SERCOM0_MODULE_ID & 1 == 1,
            spectrum: value >> SPECTRUM_MODULE_ID & 1 == 1,
            status: value >> STATUS_MODULE_ID & 1 == 1,
            timer: value >> TIMER_MODULE_ID & 1 == 1,
            touch: value >> TOUCH_MODULE_ID & 1 == 1,
        }
    }
}

/// The flag of every known module is the bit of the capability word at the
/// position of that module's identifier.
pub proof fn lemma_capability_is_module_bit(word: u32, module: u8)
    requires
        is_known_module(module),
    ensures
        DeviceCapabilities::decode(word).has(module) == bit_is_set(word, module),
{
}

/// The modules present are exactly the known modules whose bit is set.
pub proof fn lemma_capabilities_are_set_bits(word: u32)
    ensures
        DeviceCapabilities::decode(word)@ == Set::new(
            |module: u8| is_known_module(module) && bit_is_set(word, module),
        ),
{
    let caps = DeviceCapabilities::decode(word);
    assert(caps@ =~= Set::new(|module: u8| is_known_module(module) && bit_is_set(word, module)));
}

/// Each flag stands for a module of its own: two values with the same
/// modules present are the same value.
pub proof fn lemma_capabilities_are_their_modules(a: DeviceCapabilities, b: DeviceCapabilities)
    requires
        a@ == b@,
    ensures
        a == b,
{
    assert forall|module: u8| a.has(module) == b.has(module) by {
        assert(a@.contains(module) == a.has(module));
        assert(b@.contains(module) == b.has(module));
    }
    assert(a.has(ADC_MODULE_ID) == b.has(ADC_MODULE_ID));
    assert(a.has(DAC_MODULE_ID) == b.has(DAC_MODULE_ID));
    assert(a.has(DAP_MODULE_ID) == b.has(DAP_MODULE_ID));
    assert(a.has(EEPROM_MODULE_ID) == b.has(EEPROM_MODULE_ID));
    assert(a.has(ENCODER_MODULE_ID) == b.has(ENCODER_MODULE_ID));
    assert(a.has(GPIO_MODULE_ID) == b.has(GPIO_MODULE_ID));
    assert(a.has(INTERRUPT_MODULE_ID) == b.has(INTERRUPT_MODULE_ID));
    assert(a.has(KEYPAD_MODULE_ID) == b.has(KEYPAD_MODULE_ID));
    assert(a.has(NEOPIXEL_MODULE_ID) == b.has(NEOPIXEL_MODULE_ID));
    assert(a.has(SERCOM0_MODULE_ID) == b.has(SERCOM0_MODULE_ID));
    assert(a.has(SPECTRUM_MODULE_ID) == b.has(SPECTRUM_MODULE_ID));
    assert(a.has(STATUS_MODULE_ID) == b.has(STATUS_MODULE_ID));
    assert(a.has(TIMER_MODULE_ID) == b.has(TIMER_MODULE_ID));
    assert(a.has(TOUCH_MODULE_ID) == b.has(TOUCH_MODULE_ID));
}

/// A word with only the bit of one known module set decodes to that module
/// alone.
pub proof fn lemma_single_bit_is_single_module(module: u8)
    requires
        is_known_module(module),
    ensures
        DeviceCapabilities::decode(1u32 << module)@ == set![module],
{
    let word = 1u32 << module;
    assert forall|other: u8| other < 32 implies (bit_is_set(word, other) <==> other == module) by {
        assert(((1u32 << module) >> other) & 1 == 1 <==> other == module) by (bit_vector)
            requires
                module < 32,
                other < 32,
        ;
    }
    lemma_capabilities_are_set_bits(word);
    assert(DeviceCapabilities::decode(word)@ =~= set![module]);
}

/// The product identifier and build date that the version word encodes.
#[derive(Debug, PartialEq, Eq)]
pub struct ProductDateCode {
    pub id: u16,
    pub year: u8,
    pub month: u8,
    pub day: u8,
}

impl ProductDateCode {
    /// What the version word `vers` says: the product identifier in bits 16
    /// to 31, the year in bits 0 to 5, the month in bits 7 to 10 and the day
    /// in bits 11 to 15. Bit 6 belongs to no field.
    pub open spec fn decode(vers: u32) -> Self {
        ProductDateCode {
            id: (vers >> 16) as u16,
            year: (vers & 0x3F) as u8,
            month: ((vers >> 7) & 0xF) as u8,
            day: ((vers >> 11) & 0x1F) as u8,
        }
    }
}

impl vstd::std_specs::convert::FromSpecImpl<u32> for ProductDateCode {
    open spec fn obeys_from_spec() -> bool {
        true
    }

    open spec fn from_spec(vers: u32) -> Self {
        Self::decode(vers)
    }
}

impl From<u32> for ProductDateCode {
    /// Decodes the version word of the chip.
    fn from(vers: u32) -> (code: Self)
        ensures
            code == Self::decode(vers),
    {
        Self {
            id: (vers >> 16) as u16,
            year: (vers & 0x3F) as u8,
            month: ((vers >> 7) & 0xF) as u8,
            day: ((vers >> 11) & 0x1F) as u8,
        }
    }
}

/// The fields of a decoded version word as numbers: the identifier is the
/// word divided by 2^16, and year, month and day are the remainders that
/// their bit ranges hold, so that each stays below 64, 16 and 32.
pub proof fn lemma_product_date_code_fields(vers: u32)
    ensures
        ProductDateCode::decode(vers).id == vers / 0x1_0000,
        ProductDateCode::decode(vers).year == vers % 64,
        ProductDateCode::decode(vers).month == (vers / 128) % 16,
        ProductDateCode::decode(vers).day == (vers / 2048) % 32,
{
    assert((vers >> 16) == vers / 0x1_0000 && (vers >> 16) < 0x1_0000) by (bit_vector);
    assert((vers & 0x3F) == vers % 64) by (bit_vector);
    assert(((vers >> 7) & 0xF) == (vers / 128) % 16) by (bit_vector);
    assert(((vers >> 11) & 0x1F) == (vers / 2048) % 32) by (bit_vector);
}

/// A temperature in degrees Celsius as the chip reports it: a fixed-point
/// number with 16 fractional bits, so that the temperature is `raw / 2^16`.
#[derive(Copy, Clone, Debug, PartialEq, Eq)]
pub struct Temperature {
    pub raw: u32,
}

impl Temperature {
    /// The whole degrees of the temperature.
    pub fn degrees(&self) -> (whole: u16)
        ensures
            whole == self.raw / 0x1_0000,
    {
        let raw = self.raw;
        assert((raw >> 16) == raw / 0x1_0000 && (raw >> 16) < 0x1_0000) by (bit_vector);
        (raw >> 16) as u16
    }

    /// What is left of the temperature beyond the whole degrees, in units of
    /// 2^-16 degree.
    pub fn fraction(&self) -> (part: u16)
        ensures
            part == self.raw % 0x1_0000,
    {
        let raw = self.raw;
        assert((raw & 0xFFFF) == raw % 0x1_0000) by (bit_vector);
        (raw & 0xFFFF) as u16
    }
}

/// What bring-up makes of the answer to the question for the hardware
/// identifier: the expected identifier is accepted, any other byte is
/// reported with the byte, and an error stays as it is.
pub open spec fn hardware_id_verdict<E>(answer: Result<u8, SeesawError<E>>) -> Result<
    (),
    SeesawError<E>,
> {
    match answer {
        Ok(id) => if id == SEESAW_HW_ID {
            Ok(())
        } else {
            Err(SeesawError::InvalidHardwareId(id))
        },
        Err(e) => Err(e),
    }
}

/// Judges the answer to the question for the hardware identifier.
pub fn verify_hardware_id<E>(answer: Result<u8, SeesawError<E>>) -> (verdict: Result<
    (),
    SeesawError<E>,
>)
    ensures
        verdict == hardware_id_verdict(answer),
{
    match answer {
        Ok(id) => if id == SEESAW_HW_ID {
            Ok(())
        } else {
            Err(SeesawError::InvalidHardwareId(id))
        },
        Err(e) => Err(e),
    }
}

/// The transactions of a reset of the chip at `addr` whose write the
/// transport answered with `ack`: the write of the reset command and, if it
/// was acknowledged, the pause in which the chip reboots.
pub open spec fn reset_events<E>(addr: u8, ack: Result<(), E>) -> History<E> {
    let write = Transaction::WriteU8 { addr, reg: STATUS_SWRST, value: RESET_COMMAND, ack };
    if ack is Ok {
        seq![write, Transaction::DelayUs { us: RESET_DELAY_US }]
    } else {
        seq![write]
    }
}

/// The transactions of a bring-up of the chip at `addr`, where the transport
/// answered the reset write with `ack` and, if it came to that, the question
/// for the hardware identifier with `id`: the reset, and after a reset that
/// went through the settling pause and the read of the identifier.
pub open spec fn bring_up_events<E>(addr: u8, ack: Result<(), E>, id: Result<u8, E>) -> History<E> {
    if ack is Ok {
        reset_events(addr, ack) + seq![
            Transaction::DelayUs { us: SETTLE_DELAY_US },
            Transaction::ReadU8 { addr, reg: STATUS_HW_ID, byte: id },
        ]
    } else {
        reset_events(addr, ack)
    }
}

/// The result of a bring-up for the same two answers.
pub open spec fn bring_up_result<E>(ack: Result<(), E>, id: Result<u8, E>) -> Result<
    (),
    SeesawError<E>,
> {
    match ack {
        Ok(_) => hardware_id_verdict(wrapped(id)),
        Err(e) => Err(SeesawError::I2c(e)),
    }
}

/// A reset asks for exactly one register write, the reset command to the
/// reset register, and for no read. If the write is acknowledged, exactly one
/// pause follows, of 125 000 microseconds; if it is not, there is no pause.
pub proof fn lemma_reset_effects<E>(addr: u8, ack: Result<(), E>)
    ensures
        reset_events(addr, ack)[0] == (Transaction::WriteU8 {
            addr,
            reg: STATUS_SWRST,
            value: RESET_COMMAND,
            ack,
        }),
        writes(reset_events(addr, ack)) == 1,
        reads(reset_events(addr, ack)) == 0,
        ack is Ok ==> delays(reset_events(addr, ack)) == seq![125_000u32],
        ack is Err ==> delays(reset_events(addr, ack)) == Seq::<u32>::empty(),
{
    let write = Transaction::WriteU8 { addr, reg: STATUS_SWRST, value: RESET_COMMAND, ack };
    let reboot = Transaction::<E>::DelayUs { us: RESET_DELAY_US };
    lemma_tally_of_nothing::<E>();
    lemma_tally_of_push(Seq::empty(), write);
    lemma_tally_of_push(seq![write], reboot);
    assert(seq![write] =~= Seq::empty().push(write));
    assert(seq![write, reboot] =~= seq![write].push(reboot));
    assert(Seq::<u32>::empty().push(125_000u32) =~= seq![125_000u32]);
}

/// A bring-up succeeds exactly when the reset write is acknowledged and the
/// chip then answers with the expected hardware identifier. If it answers
/// with another byte, the result is the invalid-identifier error with that
/// byte. If the reset write fails, the result is the transport's error,
/// nothing but that write was asked of the transport, and there was no
/// pause. If the reset goes through, the two pauses of 125 000 and 12 500
/// microseconds come before the one read, and an error of that read is the
/// result.
pub proof fn lemma_bring_up_effects<E>(addr: u8, ack: Result<(), E>, id: Result<u8, E>)
    ensures
        bring_up_result(ack, id) is Ok <==> ack is Ok && id == Ok::<u8, E>(SEESAW_HW_ID),
        ack is Ok ==> (id matches Ok(byte) ==> byte != SEESAW_HW_ID ==> bring_up_result(ack, id)
            == Err::<(), SeesawError<E>>(SeesawError::InvalidHardwareId(byte))),
        ack is Ok ==> (id matches Err(e) ==> bring_up_result(ack, id) == Err::<
            (),
            SeesawError<E>,
        >(SeesawError::I2c(e))),
        ack matches Err(e) ==> bring_up_result(ack, id) == Err::<(), SeesawError<E>>(
            SeesawError::I2c(e),
        ),
        ack is Err ==> bring_up_events(addr, ack, id) == seq![
            (Transaction::WriteU8 { addr, reg: STATUS_SWRST, value: RESET_COMMAND, ack }),
        ],
        ack is Err ==> delays(bring_up_events(addr, ack, id)) == Seq::<u32>::empty(),
        ack is Ok ==> bring_up_events(addr, ack, id) == seq![
            (Transaction::WriteU8 { addr, reg: STATUS_SWRST, value: RESET_COMMAND, ack }),
            (Transaction::DelayUs { us: 125_000 }),
            (Transaction::DelayUs { us: 12_500 }),
            (Transaction::ReadU8 { addr, reg: STATUS_HW_ID, byte: id }),
        ],
        ack is Ok ==> delays(bring_up_events(addr, ack, id)) == seq![125_000u32, 12_500u32],
        writes(bring_up_events(addr, ack, id)) == 1,
        reads(bring_up_events(addr, ack, id)) == if ack is Ok { 1nat } else { 0nat },
{
    lemma_reset_effects(addr, ack);
    let events = bring_up_events(addr, ack, id);
    if ack is Ok {
        let write = Transaction::WriteU8 { addr, reg: STATUS_SWRST, value: RESET_COMMAND, ack };
        let reboot = Transaction::<E>::DelayUs { us: 125_000 };
        let settle = Transaction::<E>::DelayUs { us: 12_500 };
        let read = Transaction::ReadU8 { addr, reg: STATUS_HW_ID, byte: id };
        lemma_tally_of_push(reset_events(addr, ack), settle);
        lemma_tally_of_push(reset_events(addr, ack).push(settle), read);
        assert(events =~= reset_events(addr, ack).push(settle).push(read));
        assert(events =~= seq![write, reboot, settle, read]);
        assert(seq![125_000u32].push(12_500u32) =~= seq![125_000u32, 12_500u32]);
    }
}

/// The status module, which every chip has. Each operation is one or more
/// transactions on the device's transport; its contract says which were
/// added to the transport's record, and what is returned for each answer of
/// the transport. No operation is tried twice, and none changes the address.
pub trait StatusModule<D: Driver>: Device<D> {
    /// Resets the chip and makes sure that it is the expected hardware.
    fn reset_and_begin(&mut self) -> (r: Result<(), SeesawError<D::I2cError>>)
        ensures
            final(self).address() == old(self).address(),
            ({
                let before = old(self).transport().history();
                let after = final(self).transport().history();
                let ack = after[before.len() as int]->ack;
                let id = after.last()->byte;
                &&& after == before + bring_up_events(old(self).address(), ack, id)
                &&& r == bring_up_result(ack, id)
            }),
    {
        match self.reset() {
            Ok(_) => {
                self.driver().delay_us(SETTLE_DELAY_US);
                verify_hardware_id(self.hardware_id())
            },
            Err(e) => Err(e),
        }
    }

    /// Reads the capability word and decodes it.
    fn capabilities(&mut self) -> (r: Result<DeviceCapabilities, SeesawError<D::I2cError>>)
        ensures
            final(self).address() == old(self).address(),
            ({
                let before = old(self).transport().history();
                let after = final(self).transport().history();
                let word = after.last()->word;
                &&& after == before.push(
                    Transaction::ReadU32 { addr: old(self).address(), reg: STATUS_OPTIONS, word },
                )
                &&& r == match word {
                    Ok(value) => Ok(DeviceCapabilities::decode(value)),
                    Err(e) => Err(SeesawError::I2c(e)),
                }
            }),
    {
        let addr = self.addr();
        match self.driver().read_u32(addr, STATUS_OPTIONS) {
            Ok(opts) => Ok(opts.into()),
            Err(e) => Err(SeesawError::I2c(e)),
        }
    }

    /// Reads the hardware identifier of the chip.
    fn hardware_id(&mut self) -> (r: Result<u8, SeesawError<D::I2cError>>)
        ensures
            final(self).address() == old(self).address(),
            ({
                let before = old(self).transport().history();
                let after = final(self).transport().history();
                let byte = after.last()->byte;
                &&& after == before.push(
                    Transaction::ReadU8 { addr: old(self).address(), reg: STATUS_HW_ID, byte },
                )
                &&& r == wrapped(byte)
            }),
    {
        let addr = self.addr();
        match self.driver().read_u8(addr, STATUS_HW_ID) {
            Ok(id) => Ok(id),
            Err(e) => Err(SeesawError::I2c(e)),
        }
    }

    /// Reads the version word and decodes it.
    fn product_info(&mut self) -> (r: Result<ProductDateCode, SeesawError<D::I2cError>>)
        ensures
            final(self).address() == old(self).address(),
            ({
                let before = old(self).transport().history();
                let after = final(self).transport().history();
                let word = after.last()->word;
                &&& after == before.push(
                    Transaction::ReadU32 { addr: old(self).address(), reg: STATUS_VERSION, word },
                )
                &&& r == match word {
                    Ok(value) => Ok(ProductDateCode::decode(value)),
                    Err(e) => Err(SeesawError::I2c(e)),
                }
            }),
    {
        let addr = self.addr();
        match self.driver().read_u32(addr, STATUS_VERSION) {
            Ok(version) => Ok(version.into()),
            Err(e) => Err(SeesawError::I2c(e)),
        }
    }

    /// Triggers a software reset and, if the chip took the command, waits
    /// for it to reboot.
    fn reset(&mut self) -> (r: Result<(), SeesawError<D::I2cError>>)
        ensures
            final(self).address() == old(self).address(),
            ({
                let before = old(self).transport().history();
                let after = final(self).transport().history();
                let ack = after[before.len() as int]->ack;
                &&& after == before + reset_events(old(self).address(), ack)
                &&& r == wrapped(ack)
            }),
    {
        let addr = self.addr();
        match self.driver().write_u8(addr, STATUS_SWRST, RESET_COMMAND) {
            Ok(_) => {
                self.driver().delay_us(RESET_DELAY_US);
                Ok(())
            },
            Err(e) => Err(SeesawError::I2c(e)),
        }
    }

    /// Reads the temperature of the chip.
    fn temp(&mut self) -> (r: Result<Temperature, SeesawError<D::I2cError>>)
        ensures
            final(self).address() == old(self).address(),
            ({
                let before = old(self).transport().history();
                let after = final(self).transport().history();
                let word = after.last()->word;
                &&& after == before.push(
                    Transaction::ReadU32 { addr: old(self).address(), reg: STATUS_TEMP, word },
                )
                &&& r == match word {
                    Ok(raw) => Ok(Temperature { raw }),
                    Err(e) => Err(SeesawError::I2c(e)),
                }
            }),
    {
        let addr = self.addr();
        match self.driver().read_u32(addr, STATUS_TEMP) {
            Ok(raw) => Ok(Temperature { raw }),
            Err(e) => Err(SeesawError::I2c(e)),
        }
    }
}

/// Every device has the status module.
impl<D: Driver, T: Device<D>> StatusModule<D> for T {
}

} // verus!
