use seesaw::modules::status::{
    verify_hardware_id, RESET_COMMAND, RESET_DELAY_US, SETTLE_DELAY_US, STATUS_HW_ID,
    STATUS_OPTIONS, STATUS_SWRST, STATUS_TEMP, STATUS_VERSION,
};
use seesaw::modules::SEESAW_HW_ID;
use seesaw::{
    Device, DeviceCapabilities, Driver, GenericDevice, History, ProductDateCode, Reg,
    SeesawError,
    StatusModule, Temperature,
};

#[derive(Debug, Clone, Copy, PartialEq, Eq)]
enum Fault {
    Nack,
    Timeout,
}

#[derive(Debug, Clone, Copy, PartialEq, Eq)]
enum Call {
    ReadU8(u8, Reg),
    ReadU32(u8, Reg),
    WriteU8(u8, Reg, u8),
    DelayUs(u32),
}

/// A transport that answers every request with what it was told to, and
/// keeps a list of the requests.
#[derive(Debug)]
struct Stub {
    byte: Result<u8, Fault>,
    word: Result<u32, Fault>,
    ack: Result<(), Fault>,
    calls: Vec<Call>,
}

impl Stub {
    fn healthy() -> Self {
        Stub { byte: Ok(SEESAW_HW_ID), word: Ok(0), ack: Ok(()), calls: Vec::new() }
    }
}

impl Driver for Stub {
    type I2cError = Fault;

    fn history(&self) -> History<Fault> {
        unreachable!()
    }

    fn read_u8(&mut self, addr: u8, reg: Reg) -> Result<u8, Fault> {
        self.calls.push(Call::ReadU8(addr, reg));
        self.byte
    }

    fn read_u32(&mut self, addr: u8, reg: Reg) -> Result<u32, Fault> {
        self.calls.push(Call::ReadU32(addr, reg));
        self.word
    }

    fn write_u8(&mut self, addr: u8, reg: Reg, value: u8) -> Result<(), Fault> {
        self.calls.push(Call::WriteU8(addr, reg, value));
        self.ack
    }

    fn delay_us(&mut self, us: u32) {
        self.calls.push(Call::DelayUs(us));
    }
}

const ADDR: u8 = 0x49;

fn device(stub: Stub) -> GenericDevice<Stub> {
    GenericDevice::new(ADDR, stub)
}

fn delays(calls: &[Call]) -> Vec<u32> {
    let mut found = Vec::new();
    for call in calls {
        if let Call::DelayUs(us) = call {
            found.push(*us);
        }
    }
    found
}

fn writes(calls: &[Call]) -> usize {
    calls.iter().filter(|call| matches!(call, Call::WriteU8(..))).count()
}

#[test]
fn status_registers_have_their_hardware_addresses() {
    assert_eq!(STATUS_HW_ID, (0x00, 0x01));
    assert_eq!(STATUS_VERSION, (0x00, 0x02));
    assert_eq!(STATUS_OPTIONS, (0x00, 0x03));
    assert_eq!(STATUS_TEMP, (0x00, 0x04));
    assert_eq!(STATUS_SWRST, (0x00, 0x7F));
    assert_eq!(RESET_COMMAND, 0xFF);
    assert_eq!(RESET_DELAY_US, 125_000);
    assert_eq!(SETTLE_DELAY_US, 12_500);
    assert_eq!(SEESAW_HW_ID, 0x55);
}

#[test]
fn device_keeps_address_and_transport() {
    let mut dev = device(Stub::healthy());
    assert_eq!(dev.addr(), ADDR);
    assert!(dev.driver().calls.is_empty());
    dev.driver().delay_us(7);
    assert_eq!(dev.driver().calls, vec![Call::DelayUs(7)]);
    assert_eq!(dev.addr(), ADDR);
}

#[test]
fn hardware_id_reads_one_byte() {
    let mut dev = device(Stub { byte: Ok(0x87), ..Stub::healthy() });
    assert_eq!(dev.hardware_id(), Ok(0x87));
    assert_eq!(dev.driver().calls, vec![Call::ReadU8(ADDR, (0x00, 0x01))]);
    assert_eq!(dev.addr(), ADDR);
}

#[test]
fn hardware_id_wraps_the_transport_error() {
    let mut dev = device(Stub { byte: Err(Fault::Nack), ..Stub::healthy() });
    assert_eq!(dev.hardware_id(), Err(SeesawError::I2c(Fault::Nack)));
    assert_eq!(dev.driver().calls, vec![Call::ReadU8(ADDR, (0x00, 0x01))]);
}

#[test]
fn capabilities_reads_and_decodes_the_options_word() {
    let mut dev = device(Stub { word: Ok(0x0000_0103), ..Stub::healthy() });
    let caps = dev.capabilities().unwrap();
    assert_eq!(caps, DeviceCapabilities::from(0x0000_0103));
    assert!(caps.status && caps.gpio && caps.timer);
    assert!(!caps.sercom0 && !caps.adc && !caps.encoder);
    assert_eq!(dev.driver().calls, vec![Call::ReadU32(ADDR, (0x00, 0x03))]);
}

#[test]
fn capabilities_wraps_the_transport_error() {
    let mut dev = device(Stub { word: Err(Fault::Timeout), ..Stub::healthy() });
    assert_eq!(dev.capabilities(), Err(SeesawError::I2c(Fault::Timeout)));
    assert_eq!(dev.driver().calls, vec![Call::ReadU32(ADDR, (0x00, 0x03))]);
}

#[test]
fn product_info_reads_and_decodes_the_version_word() {
    let mut dev = device(Stub { word: Ok(0x137F_8995), ..Stub::healthy() });
    assert_eq!(
        dev.product_info(),
        Ok(ProductDateCode { id: 4991, year: 21, month: 3, day: 17 })
    );
    assert_eq!(dev.driver().calls, vec![Call::ReadU32(ADDR, (0x00, 0x02))]);
}

#[test]
fn product_info_wraps_the_transport_error() {
    let mut dev = device(Stub { word: Err(Fault::Nack), ..Stub::healthy() });
    assert_eq!(dev.product_info(), Err(SeesawError::I2c(Fault::Nack)));
    assert_eq!(dev.driver().calls, vec![Call::ReadU32(ADDR, (0x00, 0x02))]);
}

#[test]
fn temp_of_raw_one_degree_is_one() {
    let mut dev = device(Stub { word: Ok(0x0001_0000), ..Stub::healthy() });
    let temp = dev.temp().unwrap();
    assert_eq!(temp, Temperature { raw: 0x0001_0000 });
    assert_eq!(temp.degrees(), 1);
    assert_eq!(temp.fraction(), 0);
    assert_eq!(temp.raw as f32 / 65536.0, 1.0);
    assert_eq!(dev.driver().calls, vec![Call::ReadU32(ADDR, (0x00, 0x04))]);
}

#[test]
fn temp_of_raw_zero_is_zero() {
    let mut dev = device(Stub { word: Ok(0), ..Stub::healthy() });
    let temp = dev.temp().unwrap();
    assert_eq!(temp, Temperature { raw: 0 });
    assert_eq!(temp.raw as f32 / 65536.0, 0.0);
}

#[test]
fn temp_wraps_the_transport_error() {
    let mut dev = device(Stub { word: Err(Fault::Timeout), ..Stub::healthy() });
    assert_eq!(dev.temp(), Err(SeesawError::I2c(Fault::Timeout)));
    assert_eq!(dev.driver().calls, vec![Call::ReadU32(ADDR, (0x00, 0x04))]);
}

#[test]
fn reset_writes_once_and_waits_once() {
    let mut dev = device(Stub::healthy());
    assert_eq!(dev.reset(), Ok(()));
    let calls = dev.driver().calls.clone();
    assert_eq!(calls, vec![Call::WriteU8(ADDR, (0x00, 0x7F), 0xFF), Call::DelayUs(125_000)]);
    assert_eq!(writes(&calls), 1);
    assert_eq!(delays(&calls), vec![125_000]);
}

#[test]
fn reset_does_not_wait_when_the_write_fails() {
    let mut dev = device(Stub { ack: Err(Fault::Nack), ..Stub::healthy() });
    assert_eq!(dev.reset(), Err(SeesawError::I2c(Fault::Nack)));
    let calls = dev.driver().calls.clone();
    assert_eq!(calls, vec![Call::WriteU8(ADDR, (0x00, 0x7F), 0xFF)]);
    assert_eq!(writes(&calls), 1);
    assert!(delays(&calls).is_empty());
}

#[test]
fn reset_and_begin_accepts_the_expected_hardware() {
    let mut dev = device(Stub::healthy());
    assert_eq!(dev.reset_and_begin(), Ok(()));
    assert_eq!(
        dev.driver().calls,
        vec![
            Call::WriteU8(ADDR, (0x00, 0x7F), 0xFF),
            Call::DelayUs(125_000),
            Call::DelayUs(12_500),
            Call::ReadU8(ADDR, (0x00, 0x01)),
        ]
    );
    assert_eq!(dev.addr(), ADDR);
}

#[test]
fn reset_and_begin_reports_another_hardware_id() {
    let mut dev = device(Stub { byte: Ok(0x87), ..Stub::healthy() });
    assert_eq!(dev.reset_and_begin(), Err(SeesawError::InvalidHardwareId(0x87)));
    assert_eq!(
        dev.driver().calls,
        vec![
            Call::WriteU8(ADDR, (0x00, 0x7F), 0xFF),
            Call::DelayUs(125_000),
            Call::DelayUs(12_500),
            Call::ReadU8(ADDR, (0x00, 0x01)),
        ]
    );
}

#[test]
fn reset_and_begin_stops_when_the_reset_write_fails() {
    let mut dev = device(Stub { ack: Err(Fault::Timeout), ..Stub::healthy() });
    assert_eq!(dev.reset_and_begin(), Err(SeesawError::I2c(Fault::Timeout)));
    let calls = dev.driver().calls.clone();
    assert_eq!(calls, vec![Call::WriteU8(ADDR, (0x00, 0x7F), 0xFF)]);
    assert!(delays(&calls).is_empty());
}

#[test]
fn reset_and_begin_hands_on_a_failed_identifier_read() {
    let mut dev = device(Stub { byte: Err(Fault::Nack), ..Stub::healthy() });
    assert_eq!(dev.reset_and_begin(), Err(SeesawError::I2c(Fault::Nack)));
    let calls = dev.driver().calls.clone();
    assert_eq!(calls.len(), 4);
    assert_eq!(delays(&calls), vec![125_000, 12_500]);
    assert_eq!(calls[3], Call::ReadU8(ADDR, (0x00, 0x01)));
}

#[test]
fn reset_and_begin_can_be_tried_again() {
    let mut dev = device(Stub { byte: Ok(0x00), ..Stub::healthy() });
    assert_eq!(dev.reset_and_begin(), Err(SeesawError::InvalidHardwareId(0x00)));
    dev.driver().byte = Ok(SEESAW_HW_ID);
    assert_eq!(dev.reset_and_begin(), Ok(()));
    assert_eq!(dev.driver().calls.len(), 8);
}

#[test]
fn verify_hardware_id_judges_each_answer() {
    assert_eq!(verify_hardware_id::<Fault>(Ok(0x55)), Ok(()));
    assert_eq!(verify_hardware_id::<Fault>(Ok(0x54)), Err(SeesawError::InvalidHardwareId(0x54)));
    assert_eq!(verify_hardware_id::<Fault>(Ok(0x00)), Err(SeesawError::InvalidHardwareId(0x00)));
    assert_eq!(verify_hardware_id::<Fault>(Ok(0xFF)), Err(SeesawError::InvalidHardwareId(0xFF)));
    assert_eq!(
        verify_hardware_id(Err(SeesawError::I2c(Fault::Nack))),
        Err(SeesawError::I2c(Fault::Nack))
    );
    assert_eq!(
        verify_hardware_id::<Fault>(Err(SeesawError::InvalidHardwareId(3))),
        Err(SeesawError::InvalidHardwareId(3))
    );
}

#[test]
fn operations_use_the_address_of_the_device() {
    let mut dev = GenericDevice::new(0x36, Stub::healthy());
    assert_eq!(dev.reset_and_begin(), Ok(()));
    assert_eq!(dev.hardware_id(), Ok(0x55));
    let calls = dev.driver().calls.clone();
    assert_eq!(calls[0], Call::WriteU8(0x36, (0x00, 0x7F), 0xFF));
    assert_eq!(calls[3], Call::ReadU8(0x36, (0x00, 0x01)));
    assert_eq!(calls[4], Call::ReadU8(0x36, (0x00, 0x01)));
}
