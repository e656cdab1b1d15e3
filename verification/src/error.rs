//! What can go wrong while talking to the sensor.

use vstd::prelude::*;
use vstd::std_specs::convert::FromSpecImpl;

verus! {

/// AHT20 error, over the error type of the bus that carries the traffic.
#[derive(Debug, Copy, Clone)]
pub enum Error<I2CERR> {
    /// Device is not calibrated.
    Uncalibrated,
    /// Checksum mismatch.
    Checksum,
    /// Underlying I2C error.
    I2c(I2CERR),
}

impl<E> From<E> for Error<E> {
    /// Wraps a bus error without changing it.
    fn from(e: E) -> (err: Error<E>) {
        Error::I2c(e)
    }
}

impl<E> FromSpecImpl<E> for Error<E> {
    open spec fn obeys_from_spec() -> bool {
        true
    }

    open spec fn from_spec(e: E) -> Error<E> {
        Error::I2c(e)
    }
}

} // verus!
