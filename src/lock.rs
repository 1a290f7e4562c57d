//! Polling for PLL lock under a wall-clock deadline.
use vstd::prelude::*;

use crate::registers::{bit, locked};

verus! {

/// How long lock acquisition may take, in milliseconds.
pub const LOCK_TIMEOUT_MS: u64 = 20000;

/// Outcome of one poll of the loss-of-lock status.
#[derive(Clone, Copy, Debug, PartialEq, Eq, Structural)]
pub enum LockPoll {
    /// The PLL is locked: stop polling, with success.
    Locked,
    /// Not locked yet: read the status again.
    Pending,
    /// Not locked and the deadline has passed: stop polling, with a timeout.
    TimedOut,
}

/// Milliseconds from `start` to `now` on a monotonic clock.
pub open spec fn elapsed(start: u64, now: u64) -> int {
    if now >= start {
        now - start
    } else {
        0
    }
}

/// The outcome of a poll that read `status` at time `now`, for a monitor
/// started at `start`.
pub open spec fn poll_outcome(start: u64, status: u8, now: u64) -> LockPoll {
    if !bit(status, 0) {
        LockPoll::Locked
    } else if elapsed(start, now) > LOCK_TIMEOUT_MS {
        LockPoll::TimedOut
    } else {
        LockPoll::Pending
    }
}

/// A lock monitor: remembers when polling began.
#[derive(Clone, Copy, Debug, PartialEq, Eq, Structural)]
pub struct LockMonitor {
    pub start_ms: u64,
}

impl LockMonitor {
    /// Starts monitoring at time `now_ms`.
    pub fn new(now_ms: u64) -> (r: LockMonitor)
        ensures
            r.start_ms == now_ms,
    {
        LockMonitor { start_ms: now_ms }
    }

    /// Decides on a freshly read loss-of-lock status, read at time `now_ms`.
    pub fn poll(&self, status: u8, now_ms: u64) -> (r: LockPoll)
        ensures
            r == poll_outcome(self.start_ms, status, now_ms),
    {
        if locked(status) {
            LockPoll::Locked
        } else if now_ms >= self.start_ms && now_ms - self.start_ms > LOCK_TIMEOUT_MS {
            LockPoll::TimedOut
        } else {
            LockPoll::Pending
        }
    }
}

/// A status that reads "locked" at the `k`-th poll, after `k - 1` polls that
/// read "not locked" within the deadline, ends the monitoring with success
/// at exactly the `k`-th read.
pub proof fn lemma_locks_at_kth_poll(start: u64, statuses: Seq<u8>, times: Seq<u64>, k: int)
    requires
        1 <= k,
        statuses.len() == k,
        times.len() == k,
        forall|i: int|
            0 <= i < k - 1 ==> bit(#[trigger] statuses[i], 0) && elapsed(start, times[i])
                <= LOCK_TIMEOUT_MS,
        !bit(statuses[k - 1], 0),
    ensures
        forall|i: int|
            0 <= i < k - 1 ==> poll_outcome(start, #[trigger] statuses[i], times[i])
                == LockPoll::Pending,
        poll_outcome(start, statuses[k - 1], times[k - 1]) == LockPoll::Locked,
{
}

/// While the PLL is not locked, monitoring times out exactly when the
/// elapsed time exceeds the deadline, and never earlier.
pub proof fn lemma_timeout_only_after_deadline(start: u64, status: u8, now: u64)
    requires
        bit(status, 0),
    ensures
        poll_outcome(start, status, now) == LockPoll::TimedOut <==> elapsed(start, now)
            > LOCK_TIMEOUT_MS,
        poll_outcome(start, status, now) == LockPoll::TimedOut ==> elapsed(start, now)
            >= LOCK_TIMEOUT_MS,
        poll_outcome(start, status, now) != LockPoll::Locked,
{
}

} // verus!
