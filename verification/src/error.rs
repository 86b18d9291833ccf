//! Errors reported by the driver.

use vstd::prelude::*;

verus! {

/// Errors that come from the device or from the driver's own checks, as
/// opposed to failures of the bus.
#[derive(Clone, Copy, Debug, PartialEq, Eq, Structural)]
pub enum SensorError {
    /// The identity register holds a value of no supported chip.
    BadChip,
    /// A register field holds a value that no variant of the setting encodes.
    InvalidDiscriminant,
    /// A write was asked of a read-only register.
    WriteToReadOnly,
}

/// Any error of the driver: a failure of the bus, or a [`SensorError`].
#[derive(Clone, Copy, Debug, PartialEq, Eq)]
pub enum Error<E> {
    /// The bus reported an error.
    BusError(E),
    /// The device or the driver reported an error.
    SensorError(SensorError),
}

impl<E> From<SensorError> for Error<E> {
    fn from(e: SensorError) -> (r: Self) {
        Error::SensorError(e)
    }
}

impl<E> vstd::std_specs::convert::FromSpecImpl<SensorError> for Error<E> {
    open spec fn obeys_from_spec() -> bool {
        true
    }

    open spec fn from_spec(e: SensorError) -> Self {
        Error::SensorError(e)
    }
}

} // verus!
