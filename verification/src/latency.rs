//! Delivery latency, kept as a whole number of nanoseconds.

use vstd::prelude::*;

verus! {

/// A span of time used as time-stamped delivery latency.
#[derive(Clone, Copy, Debug, PartialEq, Eq, Structural)]
pub struct Latency {
    /// Length of the span in nanoseconds.
    pub nanos: u128,
}

/// Nanoseconds in one millisecond.
pub const NANOS_PER_MILLI: u128 = 1_000_000;

/// The larger of two latencies, as a number of nanoseconds.
pub open spec fn larger(a: Latency, b: Latency) -> Latency {
    if a.nanos >= b.nanos {
        a
    } else {
        b
    }
}

impl Latency {
    /// A latency of `millis` milliseconds.
    pub fn from_millis(millis: u64) -> (r: Latency)
        ensures
            r.nanos == millis * NANOS_PER_MILLI,
    {
        let wide: u128 = millis as u128;
        assert(wide * NANOS_PER_MILLI <= u128::MAX) by (nonlinear_arith)
            requires
                wide <= u64::MAX,
                NANOS_PER_MILLI == 1_000_000,
        ;
        Latency { nanos: wide * NANOS_PER_MILLI }
    }

    /// Whole milliseconds in this latency; the remainder is dropped.
    pub fn as_millis(&self) -> (r: u128)
        ensures
            r == self.nanos / NANOS_PER_MILLI,
    {
        self.nanos / NANOS_PER_MILLI
    }

    /// The larger of `self` and `other`: the delay that satisfies the
    /// buffering needs of both ends.
    pub fn max(self, other: Latency) -> (r: Latency)
        ensures
            r == larger(self, other),
            r.nanos >= self.nanos,
            r.nanos >= other.nanos,
            r == self || r == other,
    {
        if self.nanos >= other.nanos {
            self
        } else {
            other
        }
    }
}

} // verus!
