//! Readings of a monotonic clock, as plain numbers that the caller supplies.

use vstd::prelude::*;

verus! {

/// The number of nanoseconds in a second.
pub const NANOS_PER_SECOND: u64 = 1_000_000_000;

/// A reading of a monotonic clock: nanoseconds since an origin that the
/// caller fixes once.
#[derive(Debug, Clone, Copy, PartialEq, Eq, Structural)]
pub struct MonotonicInstant {
    pub nanos: u64,
}

/// A length of time in nanoseconds.
#[derive(Debug, Clone, Copy, PartialEq, Eq, Structural)]
pub struct TimeSpan {
    pub nanos: u64,
}

/// The time from `earlier` to `now` in nanoseconds, and zero if `earlier` is
/// in fact the later of the two.
pub open spec fn elapsed_nanos(now: MonotonicInstant, earlier: MonotonicInstant) -> int {
    if now.nanos >= earlier.nanos {
        now.nanos - earlier.nanos
    } else {
        0
    }
}

impl MonotonicInstant {
    /// The time that has passed since `earlier`: see [`elapsed_nanos`].
    pub fn saturating_duration_since(&self, earlier: MonotonicInstant) -> (span: TimeSpan)
        ensures
            span.nanos == elapsed_nanos(*self, earlier),
    {
        if self.nanos >= earlier.nanos {
            TimeSpan { nanos: self.nanos - earlier.nanos }
        } else {
            TimeSpan { nanos: 0 }
        }
    }

    /// The time that has passed since `earlier`, if `earlier` is not the later
    /// of the two.
    pub fn checked_duration_since(&self, earlier: MonotonicInstant) -> (span: Option<TimeSpan>)
        ensures
            span is Some <==> self.nanos >= earlier.nanos,
            span matches Some(s) ==> s.nanos == self.nanos - earlier.nanos,
    {
        if self.nanos >= earlier.nanos {
            Some(TimeSpan { nanos: self.nanos - earlier.nanos })
        } else {
            None
        }
    }
}

impl TimeSpan {
    /// The whole seconds in this span.
    pub fn as_secs(&self) -> (secs: u64)
        ensures
            secs == self.nanos / NANOS_PER_SECOND,
    {
        self.nanos / NANOS_PER_SECOND
    }
}

} // verus!
