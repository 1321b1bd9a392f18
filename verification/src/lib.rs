//! A verified core for drivers of "seesaw" peripheral expander chips: the
//! contract of the bus transport, the device that binds an address to a
//! transport, and the status module with its decoders and reset handshake.
pub mod device;
pub mod devices;
pub mod driver;
pub mod error;
pub mod modules;

pub use device::Device;
pub use devices::GenericDevice;
pub use driver::{Driver, History, Reg, Transaction};
pub use error::SeesawError;
pub use modules::encoder::EncoderModule;
pub use modules::gpio::GpioModule;
pub use modules::neopixel::NeopixelModule;
pub use modules::status::{DeviceCapabilities, ProductDateCode, StatusModule, Temperature};
