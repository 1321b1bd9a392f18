//! Concrete device types. A device type is an address and a transport with
//! the `Device` operations. The status module comes with that; every other
//! module of its chip is attached to it by an impl of the module's trait,
//! which also fixes the constants of the module. What a type can do is
//! therefore settled when it is compiled: it has the operations of the
//! modules attached to it and of no other, and attaching a module touches
//! neither the address nor the transport.
use crate::device::Device;
use crate::driver::Driver;
use vstd::prelude::*;

verus! {

/// Any chip of the family: a device with no module attached, which leaves
/// it the status module that every device has.
#[derive(Debug)]
pub struct GenericDevice<M>(u8, M);

impl<D: Driver> Device<D> for GenericDevice<D> {
    closed spec fn address(&self) -> u8 {
        self.0
    }

    closed spec fn transport(&self) -> &D {
        &self.1
    }

    fn addr(&self) -> (addr: u8) {
        self.0
    }

    fn driver(&mut self) -> (driver: &mut D) {
        &mut self.1
    }

    fn new(addr: u8, driver: D) -> (device: Self) {
        Self(addr, driver)
    }
}

} // verus!
