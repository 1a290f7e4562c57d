//! Splitting of microsecond timestamps for log lines.
use vstd::prelude::*;

verus! {

/// Splits a microsecond count into whole seconds and the remaining
/// microseconds.
pub fn split_timestamp(us: u64) -> (r: (u64, u64))
    ensures
        r.0 == us / 1_000_000,
        r.1 == us % 1_000_000,
        r.0 * 1_000_000 + r.1 == us,
{
    (us / 1_000_000, us % 1_000_000)
}

} // verus!
