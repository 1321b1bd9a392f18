//! A device: one chip on the bus, known by its address and reached through
//! the transport that it owns.
use crate::driver::Driver;
use vstd::prelude::*;

verus! {

/// What every concrete device type offers: `addr`, `driver` and `new`. The
/// modules of the chip are written against these three operations and
/// nothing else, so each module is written once and serves every device
/// type.
///
/// `address` and `transport` are the two parts of a device as the contracts
/// speak of them. They are specification functions and are never run.
pub trait Device<D: Driver>: Sized {
    /// The bus address of the chip. It is fixed when the device is made.
    spec fn address(&self) -> u8;

    /// The transport that the device owns.
    spec fn transport(&self) -> &D;

    /// The bus address of the chip, which never changes.
    fn addr(&self) -> (addr: u8)
        ensures
            addr == self.address(),
    ;

    /// Exclusive access to the transport. Whatever the caller does to the
    /// transport is what the device holds afterwards; the address stays.
    fn driver(&mut self) -> (driver: &mut D)
        ensures
            *driver == *old(self).transport(),
            *final(self).transport() == *final(driver),
            final(self).address() == old(self).address(),
    ;

    /// Binds `addr` and `driver` into a device. An I2C address has 7 bits;
    /// the byte is taken as it is given.
    fn new(addr: u8, driver: D) -> (device: Self)
        ensures
            device.address() == addr,
            *device.transport() == driver,
    ;
}

} // verus!
