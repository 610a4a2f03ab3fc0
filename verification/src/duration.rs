//! Spans of time in whole nanoseconds.

use vstd::prelude::*;

verus! {

/// Nanoseconds in one second.
pub const NANOS_PER_SEC: u128 = 1_000_000_000;

/// Nanoseconds in one millisecond.
pub const NANOS_PER_MILLI: u128 = 1_000_000;

/// The longest span: `u64::MAX` seconds and 999,999,999 nanoseconds.
pub const MAX_NANOS: u128 = 18_446_744_073_709_551_615_999_999_999;

/// A span of time, as long as a `std::time::Duration` can be.
#[derive(Clone, Copy, Debug, PartialEq, Eq)]
pub struct Duration {
    nanos: u128,
}

impl View for Duration {
    type V = nat;

    /// The span in nanoseconds.
    closed spec fn view(&self) -> nat {
        self.nanos as nat
    }
}

/// The nanoseconds in `n` seconds.
pub open spec fn seconds(n: nat) -> nat {
    n * 1_000_000_000
}

/// The shorter of two spans.
pub open spec fn shorter(a: nat, b: nat) -> nat {
    if b < a {
        b
    } else {
        a
    }
}

impl Duration {
    #[verifier::type_invariant]
    spec fn in_range(&self) -> bool {
        self.nanos <= MAX_NANOS
    }

    /// `secs` seconds and `nanos` nanoseconds.
    pub fn new(secs: u64, nanos: u32) -> (d: Self)
        requires
            seconds(secs as nat) + nanos <= MAX_NANOS,
        ensures
            d@ == seconds(secs as nat) + nanos,
    {
        Duration { nanos: secs as u128 * NANOS_PER_SEC + nanos as u128 }
    }

    /// `secs` seconds.
    pub fn from_secs(secs: u64) -> (d: Self)
        ensures
            d@ == seconds(secs as nat),
    {
        Duration { nanos: secs as u128 * NANOS_PER_SEC }
    }

    /// The whole seconds of the span.
    pub fn as_secs(&self) -> (secs: u64)
        ensures
            secs == self@ / 1_000_000_000,
    {
        proof {
            use_type_invariant(self);
        }
        (self.nanos / NANOS_PER_SEC) as u64
    }

    /// What the span holds beyond its whole seconds, in nanoseconds.
    pub fn subsec_nanos(&self) -> (nanos: u32)
        ensures
            nanos == self@ % 1_000_000_000,
    {
        (self.nanos % NANOS_PER_SEC) as u32
    }

    /// The whole milliseconds of the span.
    pub fn as_millis(&self) -> (millis: u128)
        ensures
            millis == self@ / 1_000_000,
    {
        self.nanos / NANOS_PER_MILLI
    }

    /// Whether the span is longer than `other`.
    pub fn exceeds(&self, other: &Self) -> (longer: bool)
        ensures
            longer == (self@ > other@),
    {
        self.nanos > other.nanos
    }

    /// The shorter of the two spans.
    pub fn min(self, other: Self) -> (d: Self)
        ensures
            d@ == shorter(self@, other@),
    {
        if other.nanos < self.nanos {
            other
        } else {
            self
        }
    }

    /// The span without `other`, which must not be longer.
    pub fn minus(self, other: Self) -> (d: Self)
        requires
            other@ <= self@,
        ensures
            d@ == self@ - other@,
    {
        proof {
            use_type_invariant(&self);
        }
        Duration { nanos: self.nanos - other.nanos }
    }

    /// Half the span, in whole nanoseconds.
    pub fn halved(self) -> (d: Self)
        ensures
            d@ == self@ / 2,
    {
        proof {
            use_type_invariant(&self);
        }
        Duration { nanos: self.nanos / 2 }
    }

    /// Twice the span, which must still be in range.
    pub fn doubled(self) -> (d: Self)
        requires
            2 * self@ <= MAX_NANOS,
        ensures
            d@ == 2 * self@,
    {
        Duration { nanos: self.nanos * 2 }
    }
}

} // verus!
