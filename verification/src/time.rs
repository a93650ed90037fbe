//! Spans of time and readings of a monotonic clock, in nanoseconds.

use vstd::prelude::*;

verus! {

/// A span of time.
#[derive(Clone, Copy, Debug, Default, PartialEq, Eq, PartialOrd, Ord, Hash, Structural)]
pub struct Duration {
    pub nanos: u128,
}

impl Duration {
    /// A span of whole seconds.
    pub fn from_secs(secs: u64) -> (r: Duration)
        ensures
            r.nanos == secs * 1_000_000_000,
    {
        Duration { nanos: secs as u128 * 1_000_000_000 }
    }

    /// A span of whole milliseconds.
    pub fn from_millis(millis: u64) -> (r: Duration)
        ensures
            r.nanos == millis * 1_000_000,
    {
        Duration { nanos: millis as u128 * 1_000_000 }
    }

    /// Whether the span is empty.
    pub fn is_zero(&self) -> (r: bool)
        ensures
            r == (self.nanos == 0),
    {
        self.nanos == 0
    }
}

/// A reading of a monotonic clock.
#[derive(Clone, Copy, Debug, Default, PartialEq, Eq, PartialOrd, Ord, Hash, Structural)]
pub struct Instant {
    pub nanos: u128,
}

impl Instant {
    /// The reading `d` later.
    pub fn plus(&self, d: Duration) -> (r: Instant)
        requires
            self.nanos + d.nanos <= u128::MAX,
        ensures
            r.nanos == self.nanos + d.nanos,
    {
        Instant { nanos: self.nanos + d.nanos }
    }

    /// The reading `d` earlier.
    pub fn minus(&self, d: Duration) -> (r: Instant)
        requires
            d.nanos <= self.nanos,
        ensures
            r.nanos == self.nanos - d.nanos,
    {
        Instant { nanos: self.nanos - d.nanos }
    }
}

} // verus!
