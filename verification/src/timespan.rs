//! A span of time with nanosecond resolution, ranging over the values of
//! `std::time::Duration` (at most `u64::MAX` seconds plus 999,999,999
//! nanoseconds), and the arithmetic the retry policy uses on it.

use vstd::prelude::*;

verus! {

/// Nanoseconds per second.
pub const NANOS_PER_SEC: u128 = 1_000_000_000;

/// Nanoseconds in the longest span (`Duration::MAX`).
pub const MAX_NANOS: u128 = 18_446_744_073_709_551_615_999_999_999;

/// A span of time, counted in nanoseconds.
#[derive(Debug, Clone, Copy, PartialEq, Eq, Structural)]
pub struct TimeSpan {
    nanos: u128,
}

impl TimeSpan {
    #[verifier::type_invariant]
    spec fn in_range(self) -> bool {
        self.nanos <= MAX_NANOS
    }

    /// Length of the span in nanoseconds.
    pub closed spec fn total_nanos(self) -> nat {
        self.nanos as nat
    }

    /// A span of `secs` seconds (`Duration::from_secs`).
    pub fn from_secs(secs: u64) -> (t: TimeSpan)
        ensures
            t.total_nanos() == secs * NANOS_PER_SEC,
    {
        TimeSpan { nanos: (secs as u128) * NANOS_PER_SEC }
    }

    /// A span of `millis` milliseconds (`Duration::from_millis`).
    pub fn from_millis(millis: u64) -> (t: TimeSpan)
        ensures
            t.total_nanos() == millis * 1_000_000,
    {
        TimeSpan { nanos: (millis as u128) * 1_000_000 }
    }

    /// A span of `secs` seconds and `subsec_nanos` nanoseconds.
    pub fn from_parts(secs: u64, subsec_nanos: u32) -> (t: TimeSpan)
        requires
            subsec_nanos < NANOS_PER_SEC,
        ensures
            t.total_nanos() == secs * NANOS_PER_SEC + subsec_nanos,
    {
        TimeSpan { nanos: (secs as u128) * NANOS_PER_SEC + (subsec_nanos as u128) }
    }

    /// Whole seconds in the span (`Duration::as_secs`).
    pub fn as_secs(&self) -> (s: u64)
        ensures
            s == self.total_nanos() / (NANOS_PER_SEC as nat),
    {
        proof {
            use_type_invariant(self);
        }
        (self.nanos / NANOS_PER_SEC) as u64
    }

    /// Nanoseconds beyond the whole seconds (`Duration::subsec_nanos`).
    pub fn subsec_nanos(&self) -> (n: u32)
        ensures
            n == self.total_nanos() % (NANOS_PER_SEC as nat),
            n < NANOS_PER_SEC,
    {
        (self.nanos % NANOS_PER_SEC) as u32
    }

    /// Length of the span in nanoseconds (`Duration::as_nanos`).
    pub fn as_nanos(&self) -> (n: u128)
        ensures
            n == self.total_nanos(),
            n <= MAX_NANOS,
    {
        proof {
            use_type_invariant(self);
        }
        self.nanos
    }

    /// `self` repeated `factor` times, or the longest span when that would
    /// not fit (`Duration::saturating_mul`).
    pub fn saturating_mul(self, factor: u32) -> (t: TimeSpan)
        ensures
            t.total_nanos() == if self.total_nanos() * factor <= MAX_NANOS {
                self.total_nanos() * factor
            } else {
                MAX_NANOS as int
            },
    {
        proof {
            use_type_invariant(self);
            assert(self.nanos * factor <= MAX_NANOS * 4_294_967_295) by (nonlinear_arith)
                requires
                    self.nanos <= MAX_NANOS,
                    factor <= 4_294_967_295,
            ;
        }
        let product: u128 = self.nanos * (factor as u128);
        if product <= MAX_NANOS {
            TimeSpan { nanos: product }
        } else {
            TimeSpan { nanos: MAX_NANOS }
        }
    }

    /// The shorter of two spans (`Ord::min`).
    pub fn min(self, other: TimeSpan) -> (t: TimeSpan)
        ensures
            t.total_nanos() == if self.total_nanos() <= other.total_nanos() {
                self.total_nanos()
            } else {
                other.total_nanos()
            },
    {
        if self.nanos <= other.nanos {
            self
        } else {
            other
        }
    }

    /// Whether `self` is no longer than `other`.
    pub fn le(&self, other: &TimeSpan) -> (b: bool)
        ensures
            b == (self.total_nanos() <= other.total_nanos()),
    {
        self.nanos <= other.nanos
    }
}

} // verus!
