//! A span of time, counted in nanoseconds.
//!
//! The library reasons about timeouts, backoff delays and cache lifetimes as
//! plain numbers; this type carries exactly the range of values that
//! `std::time::Duration` can hold, so converting in either direction is exact.

use vstd::prelude::*;

verus! {

/// Nanoseconds in one second.
pub const NANOS_PER_SEC: u128 = 1_000_000_000;

/// Nanoseconds in one millisecond.
pub const NANOS_PER_MILLI: u128 = 1_000_000;

/// The largest span that can be represented: `u64::MAX` seconds plus
/// 999_999_999 nanoseconds.
pub const MAX_NANOS: u128 = 18_446_744_073_709_551_615_999_999_999;

/// A span of time with nanosecond precision.
#[derive(Clone, Copy, Debug, PartialEq, Eq, Hash, Structural)]
pub struct Duration {
    nanos: u128,
}

impl View for Duration {
    type V = nat;

    /// The span in nanoseconds.
    closed spec fn view(&self) -> nat {
        self.nanos as nat
    }
}

/// The span of `ms` milliseconds, as a number of nanoseconds.
pub open spec fn millis_to_nanos(ms: nat) -> nat {
    ms * 1_000_000
}

/// The span of `s` seconds, as a number of nanoseconds.
pub open spec fn secs_to_nanos(s: nat) -> nat {
    s * 1_000_000_000
}

impl Duration {
    #[verifier::type_invariant]
    spec fn inv(self) -> bool {
        self.nanos <= MAX_NANOS
    }

    /// The empty span.
    pub fn zero() -> (d: Duration)
        ensures
            d@ == 0,
    {
        Duration { nanos: 0 }
    }

    /// A span of whole seconds.
    pub fn from_secs(secs: u64) -> (d: Duration)
        ensures
            d@ == secs_to_nanos(secs as nat),
    {
        assert(secs * 1_000_000_000 <= MAX_NANOS) by (nonlinear_arith)
            requires
                secs <= u64::MAX,
        ;
        Duration { nanos: (secs as u128) * NANOS_PER_SEC }
    }

    /// A span of whole milliseconds.
    pub fn from_millis(millis: u64) -> (d: Duration)
        ensures
            d@ == millis_to_nanos(millis as nat),
    {
        assert(millis * 1_000_000 <= MAX_NANOS) by (nonlinear_arith)
            requires
                millis <= u64::MAX,
        ;
        Duration { nanos: (millis as u128) * NANOS_PER_MILLI }
    }

    /// A span of whole seconds plus a number of nanoseconds below one second.
    pub fn new(secs: u64, subsec_nanos: u32) -> (d: Duration)
        requires
            subsec_nanos < 1_000_000_000,
        ensures
            d@ == secs_to_nanos(secs as nat) + subsec_nanos,
    {
        assert(secs * 1_000_000_000 + subsec_nanos <= MAX_NANOS) by (nonlinear_arith)
            requires
                secs <= u64::MAX,
                subsec_nanos < 1_000_000_000,
        ;
        Duration { nanos: (secs as u128) * NANOS_PER_SEC + (subsec_nanos as u128) }
    }

    /// The whole span in nanoseconds.
    pub fn as_nanos(&self) -> (n: u128)
        ensures
            n == self@,
            n <= MAX_NANOS,
    {
        proof {
            use_type_invariant(self);
        }
        self.nanos
    }

    /// The number of whole milliseconds in the span.
    pub fn as_millis(&self) -> (n: u128)
        ensures
            n == self@ / 1_000_000,
    {
        self.nanos / NANOS_PER_MILLI
    }

    /// The number of whole seconds in the span.
    pub fn as_secs(&self) -> (n: u64)
        ensures
            n == self@ / 1_000_000_000,
    {
        proof {
            use_type_invariant(self);
        }
        (self.nanos / NANOS_PER_SEC) as u64
    }

    /// The nanoseconds beyond the whole seconds of the span.
    pub fn subsec_nanos(&self) -> (n: u32)
        ensures
            n == self@ % 1_000_000_000,
            n < 1_000_000_000,
    {
        (self.nanos % NANOS_PER_SEC) as u32
    }

    /// The span from `earlier` to `self`, or zero if `earlier` is later.
    pub fn saturating_sub(&self, earlier: &Duration) -> (d: Duration)
        ensures
            d@ == (if self@ >= earlier@ {
                (self@ - earlier@) as nat
            } else {
                0
            }),
    {
        proof {
            use_type_invariant(self);
        }
        if self.nanos >= earlier.nanos {
            Duration { nanos: self.nanos - earlier.nanos }
        } else {
            Duration { nanos: 0 }
        }
    }

    /// Whether this span is at least as long as `other`.
    pub fn at_least(&self, other: &Duration) -> (b: bool)
        ensures
            b == (self@ >= other@),
    {
        self.nanos >= other.nanos
    }
}

} // verus!
