//! The errors of the driver.
use vstd::prelude::*;

verus! {

/// What can go wrong when talking to a chip. `E` is the error type of the
/// bus transport.
#[derive(Debug, PartialEq, Eq)]
pub enum SeesawError<E> {
    /// The transport failed; its error is handed on as it came.
    I2c(E),
    /// The chip answered with a hardware identifier other than the expected
    /// one; the byte it sent is kept.
    InvalidHardwareId(u8),
}

/// The outcome of a register operation as the driver reports it: a value
/// stays as it is, an error of the transport is wrapped.
pub open spec fn wrapped<T, E>(outcome: Result<T, E>) -> Result<T, SeesawError<E>> {
    match outcome {
        Ok(value) => Ok(value),
        Err(e) => Err(SeesawError::I2c(e)),
    }
}

} // verus!
