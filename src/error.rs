//! Failures of the driver's operations.
use vstd::prelude::*;

use crate::bus::Phase;
use crate::mapper::ValidationError;

verus! {

/// An input signal whose presence the bring-up sequence checks.
#[derive(Clone, Copy, Debug, PartialEq, Eq, Structural)]
pub enum Signal {
    /// The reference crystal on the XA/XB pins.
    Crystal,
    /// The secondary clock input CLKIN2.
    Clkin2,
}

#[derive(Clone, Copy, Debug, PartialEq, Eq, Structural)]
pub enum Error {
    /// The frequency settings were rejected.
    Validation(ValidationError),
    /// A byte of a bus transaction was not acknowledged.
    BusAck(Phase),
    /// The chip did not report the expected product number.
    IdentityMismatch,
    /// A required input signal is absent.
    MissingSignal(Signal),
    /// The PLL did not lock before the deadline.
    LockTimeout,
}

} // verus!
