//! Driver logic for the Si5324 clock multiplier and jitter attenuator.
//!
//! - `mapper`: validation of the logical PLL divider settings and their
//!   register encoding.
//! - `bus`: framing of single-register transactions and the decision taken
//!   after each bus operation.
//! - `registers`: register numbers, status decoding and register updates.
//! - `setup`: the bring-up plan and the input-selection plan.
//! - `lock`: the lock monitor's decision on each poll.
//! - `error`: the failures of the driver's operations.
//! - `timestamp`: splitting of log timestamps.
use vstd::prelude::*;

pub mod bus;
pub mod error;
pub mod lock;
pub mod mapper;
pub mod registers;
pub mod setup;
pub mod timestamp;

verus! {

} // verus!
