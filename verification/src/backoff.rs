//! Bounded backoff used when polling a controller register bit.
//!
//! The helper is stateless beyond the number of attempts already made within a
//! single wait operation; it is never shared across concurrent waits. The
//! delay grows linearly in the attempt number and is capped, so a caller that
//! honours the delays neither busy-spins nor waits unboundedly.

use vstd::prelude::*;

verus! {

/// Delay of the first attempt, in microseconds.
pub const BACKOFF_BASE_DELAY_US: u64 = 500;

/// Cap on the delay of any single attempt, in microseconds.
pub const BACKOFF_MAX_DELAY_US: u64 = 100_000;

/// The delay to honour after `attempt` failed polls.
pub open spec fn spec_backoff_delay(attempt: u64) -> int {
    if attempt >= 200 {
        BACKOFF_MAX_DELAY_US as int
    } else {
        (attempt + 1) * BACKOFF_BASE_DELAY_US
    }
}

/// Tracks the attempts already made while polling for one condition.
pub struct Backoff {
    /// Number of failed polls so far.
    pub attempts: u64,
    /// Attempts after which the wait is abandoned.
    pub max_attempts: u64,
}

impl Backoff {
    /// A fresh wait that gives up after `max_attempts` polls.
    pub fn new(max_attempts: u64) -> (r: Backoff)
        ensures
            r.attempts == 0,
            r.max_attempts == max_attempts,
    {
        Backoff { attempts: 0, max_attempts }
    }

    /// Whether the wait has used up its attempt budget.
    pub fn is_exhausted(&self) -> (r: bool)
        ensures
            r == (self.attempts >= self.max_attempts),
    {
        self.attempts >= self.max_attempts
    }

    /// Records one failed poll and returns the delay in microseconds to honour
    /// before the next one.
    pub fn back_off(&mut self) -> (delay_us: u64)
        requires
            old(self).attempts < old(self).max_attempts,
        ensures
            final(self).attempts == old(self).attempts + 1,
            final(self).max_attempts == old(self).max_attempts,
            delay_us == spec_backoff_delay(old(self).attempts),
            0 < delay_us <= BACKOFF_MAX_DELAY_US,
    {
        let delay_us: u64 = if self.attempts >= 200 {
            BACKOFF_MAX_DELAY_US
        } else {
            (self.attempts + 1) * BACKOFF_BASE_DELAY_US
        };
        self.attempts = self.attempts + 1;
        delay_us
    }
}

} // verus!
