//! Elapsed time, in nanoseconds of a monotonic clock that the caller reads.

use vstd::prelude::*;

verus! {

/// Nanoseconds in a second.
pub const NANOS_PER_SEC: u128 = 1_000_000_000;

/// Nanoseconds from `since` to `now`; zero where the clock has gone backwards.
pub open spec fn elapsed(since: u128, now: u128) -> nat {
    if now >= since {
        (now - since) as nat
    } else {
        0
    }
}

/// Whether more than `secs` whole seconds lie between `since` and `now`.
pub open spec fn expired(since: u128, now: u128, secs: u64) -> bool {
    elapsed(since, now) > secs as nat * NANOS_PER_SEC as nat
}

/// A point in time from which elapsed time is measured; set again whenever it fires.
#[derive(Clone, Copy, Debug, PartialEq, Eq, Structural)]
pub struct Timer {
    pub since: u128,
}

impl Timer {
    /// A timer started at `now`.
    pub fn start(now: u128) -> (timer: Timer)
        ensures
            timer.since == now,
    {
        Timer { since: now }
    }

    /// Whether more than `secs` seconds have passed at `now`.
    pub fn is_expired(&self, now: u128, secs: u64) -> (fired: bool)
        ensures
            fired == expired(self.since, now, secs),
    {
        let passed: u128 = if now >= self.since {
            now - self.since
        } else {
            0
        };
        passed > (secs as u128) * NANOS_PER_SEC
    }

    /// Starts the timer again at `now`.
    pub fn reset(&mut self, now: u128)
        ensures
            final(self).since == now,
    {
        self.since = now;
    }
}

} // verus!
