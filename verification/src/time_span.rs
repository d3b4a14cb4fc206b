//! Wall-clock time spans, stored as whole seconds plus a sub-second
//! nanosecond remainder.

use vstd::prelude::*;

verus! {

pub const NANOS_PER_SEC: u32 = 1_000_000_000;

/// A non-negative span of wall-clock time.
///
/// A span is well formed when `nanos` is a proper sub-second remainder,
/// i.e. strictly below one second's worth of nanoseconds.
#[derive(Clone, Copy, Debug, PartialEq, Eq, Structural)]
pub struct TimeSpan {
    pub secs: u64,
    pub nanos: u32,
}

impl TimeSpan {
    /// The span's nanosecond remainder stays below one second.
    pub open spec fn wf(self) -> bool {
        self.nanos < NANOS_PER_SEC
    }

    /// The whole span, measured in nanoseconds.
    pub open spec fn total_nanos(self) -> int {
        self.secs as int * NANOS_PER_SEC as int + self.nanos as int
    }

    pub fn new(secs: u64, nanos: u32) -> (r: TimeSpan)
        requires
            nanos < NANOS_PER_SEC,
        ensures
            r.wf(),
            r.secs == secs,
            r.nanos == nanos,
    {
        TimeSpan { secs, nanos }
    }

    pub fn zero() -> (r: TimeSpan)
        ensures
            r.wf(),
            r.secs == 0,
            r.nanos == 0,
            r.total_nanos() == 0,
    {
        TimeSpan { secs: 0, nanos: 0 }
    }

    /// The sum of two spans, carrying the nanosecond remainders into the
    /// seconds so that the result is well formed again.
    pub fn plus(self, other: TimeSpan) -> (r: TimeSpan)
        requires
            self.wf(),
            other.wf(),
            self.secs + other.secs < u64::MAX,
        ensures
            r.wf(),
            r.total_nanos() == self.total_nanos() + other.total_nanos(),
    {
        let mut secs: u64 = self.secs + other.secs;
        let mut nanos: u32 = self.nanos + other.nanos;
        if nanos >= NANOS_PER_SEC {
            nanos = nanos - NANOS_PER_SEC;
            secs = secs + 1;
        }
        TimeSpan { secs, nanos }
    }
}

} // verus!
