//! A plain model of a span of wall-clock time: whole seconds plus a
//! sub-second nanosecond remainder, as the standard library's duration
//! type carries it. The invariant keeps the nanosecond part below one
//! second, so every span has exactly one representation.

use vstd::prelude::*;

verus! {

/// Nanoseconds in one second.
pub const NANOS_PER_SEC: u32 = 1_000_000_000;

/// Nanoseconds in one millisecond.
pub const NANOS_PER_MILLI: u32 = 1_000_000;

/// Milliseconds in one second.
pub const MILLIS_PER_SEC: u64 = 1_000;

/// A non-negative span of time: `secs` whole seconds plus `nanos`
/// nanoseconds, with `nanos` strictly below one second.
#[derive(Clone, Copy, Debug, PartialEq, Eq, Structural)]
pub struct TimeSpan {
    pub secs: u64,
    pub nanos: u32,
}

impl TimeSpan {
    /// The representation invariant: the sub-second part is a remainder.
    pub open spec fn wf(self) -> bool {
        self.nanos < NANOS_PER_SEC
    }

    /// The span's length as a mathematical number of nanoseconds.
    pub open spec fn to_nanos(self) -> int {
        self.secs * NANOS_PER_SEC + self.nanos
    }

    /// Build a span from whole seconds and a nanosecond remainder.
    pub fn new(secs: u64, nanos: u32) -> (r: TimeSpan)
        requires
            nanos < NANOS_PER_SEC,
        ensures
            r.wf(),
            r.secs == secs,
            r.nanos == nanos,
    {
        TimeSpan { secs, nanos }
    }

    /// Build a span from a number of milliseconds, splitting it into
    /// whole seconds and the remainder.
    pub fn from_millis(ms: u64) -> (r: TimeSpan)
        ensures
            r.wf(),
            r.secs == ms / MILLIS_PER_SEC,
            r.nanos == (ms % MILLIS_PER_SEC) * NANOS_PER_MILLI,
            r.to_nanos() == ms * (NANOS_PER_MILLI as int),
    {
        let secs: u64 = ms / MILLIS_PER_SEC;
        let rem: u64 = ms % MILLIS_PER_SEC;
        let nanos: u32 = (rem as u32) * NANOS_PER_MILLI;
        proof {
            assert(rem < MILLIS_PER_SEC);
            assert(rem * NANOS_PER_MILLI < NANOS_PER_SEC) by (nonlinear_arith)
                requires
                    rem < 1000,
            ;
            assert(secs * (NANOS_PER_SEC as int) + rem * (NANOS_PER_MILLI as int)
                == ms * (NANOS_PER_MILLI as int)) by (nonlinear_arith)
                requires
                    secs == ms / 1000,
                    rem == ms % 1000,
            ;
        }
        TimeSpan { secs, nanos }
    }

    /// The span's length in nanoseconds, as an exec value.
    pub fn total_nanos(&self) -> (r: u128)
        requires
            self.wf(),
        ensures
            r == self.to_nanos(),
    {
        proof {
            assert((self.secs as int) * (NANOS_PER_SEC as int) + (self.nanos as int)
                < 0x1_0000_0000_0000_0000_0000_0000_0000_0000int) by (nonlinear_arith)
                requires
                    self.secs <= u64::MAX,
                    self.nanos < NANOS_PER_SEC,
            ;
        }
        (self.secs as u128) * (NANOS_PER_SEC as u128) + (self.nanos as u128)
    }

    /// Whether this span is zero.
    pub fn is_zero(&self) -> (r: bool)
        requires
            self.wf(),
        ensures
            r == (self.to_nanos() == 0),
    {
        self.secs == 0 && self.nanos == 0
    }
}

} // verus!
