//! Spans of time, counted in nanoseconds.

use vstd::prelude::*;

verus! {

/// The nanoseconds of a second.
pub const NANOS_PER_SEC: u128 = 1_000_000_000;

/// The nanoseconds of a millisecond.
pub const NANOS_PER_MILLI: u128 = 1_000_000;

/// The longest span: as many seconds as fit in 64 bits, and all but one
/// nanosecond of the next.
pub const MAX_NANOS: u128 = 18_446_744_073_709_551_615_999_999_999;

/// A span of time.
#[derive(Clone, Copy, Debug, PartialEq, Eq, Structural)]
pub struct Duration {
    nanos: u128,
}

impl View for Duration {
    type V = nat;

    closed spec fn view(&self) -> nat {
        self.nanos as nat
    }
}

impl Duration {
    #[verifier::type_invariant]
    spec fn fits(self) -> bool {
        self.nanos <= MAX_NANOS
    }

    /// No time at all.
    pub fn zero() -> (span: Duration)
        ensures
            span@ == 0,
    {
        Duration { nanos: 0 }
    }

    /// So many seconds.
    pub fn from_secs(secs: u64) -> (span: Duration)
        ensures
            span@ == secs * NANOS_PER_SEC,
    {
        Duration { nanos: secs as u128 * NANOS_PER_SEC }
    }

    /// So many milliseconds.
    pub fn from_millis(millis: u64) -> (span: Duration)
        ensures
            span@ == millis * NANOS_PER_MILLI,
    {
        Duration { nanos: millis as u128 * NANOS_PER_MILLI }
    }

    /// So many nanoseconds.
    pub fn from_nanos(nanos: u64) -> (span: Duration)
        ensures
            span@ == nanos,
    {
        Duration { nanos: nanos as u128 }
    }

    /// The whole milliseconds of the span.
    pub fn as_millis(&self) -> (millis: u128)
        ensures
            millis == self@ / (NANOS_PER_MILLI as nat),
    {
        self.nanos / NANOS_PER_MILLI
    }

    /// The nanoseconds of the span.
    pub fn as_nanos(&self) -> (nanos: u128)
        ensures
            nanos == self@,
            nanos <= MAX_NANOS,
    {
        proof {
            use_type_invariant(self);
        }
        self.nanos
    }

    /// Whether the span is empty.
    pub fn is_zero(&self) -> (zero: bool)
        ensures
            zero == (self@ == 0),
    {
        self.nanos == 0
    }

    /// What is left of the span once `other` is taken from it, and nothing where
    /// `other` is longer.
    pub fn saturating_sub(&self, other: Duration) -> (rest: Duration)
        ensures
            rest@ == if self@ >= other@ {
                self@ - other@
            } else {
                0
            },
    {
        proof {
            use_type_invariant(self);
        }
        if self.nanos >= other.nanos {
            Duration { nanos: self.nanos - other.nanos }
        } else {
            Duration { nanos: 0 }
        }
    }

    /// The two spans one after the other.
    pub fn plus(&self, other: Duration) -> (sum: Duration)
        requires
            self@ + other@ <= MAX_NANOS,
        ensures
            sum@ == self@ + other@,
    {
        Duration { nanos: self.nanos + other.nanos }
    }

    /// The span cut into equal parts, to the whole nanosecond below.
    pub fn divided_by(&self, parts: u32) -> (part: Duration)
        requires
            parts > 0,
        ensures
            part@ == self@ / (parts as nat),
            part@ <= self@,
    {
        proof {
            use_type_invariant(self);
            assert(self.nanos / (parts as u128) <= self.nanos) by (nonlinear_arith)
                requires
                    parts > 0,
            ;
        }
        Duration { nanos: self.nanos / (parts as u128) }
    }

    /// Whether the span is longer than `other`.
    pub fn longer_than(&self, other: Duration) -> (longer: bool)
        ensures
            longer == (self@ > other@),
    {
        self.nanos > other.nanos
    }

    /// The shorter of two spans.
    pub fn shortest(&self, other: Duration) -> (shortest: Duration)
        ensures
            shortest@ == if self@ <= other@ {
                self@
            } else {
                other@
            },
    {
        if self.nanos <= other.nanos {
            *self
        } else {
            other
        }
    }

    /// The longer of the two spans.
    pub fn longest(&self, other: Duration) -> (longest: Duration)
        ensures
            longest@ == if self@ >= other@ {
                self@
            } else {
                other@
            },
    {
        if self.nanos >= other.nanos {
            *self
        } else {
            other
        }
    }
}

} // verus!
