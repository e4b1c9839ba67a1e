//! Non-negative spans of time with nanosecond resolution.
use vstd::prelude::*;

verus! {

/// The number of nanoseconds in one second.
pub const NANOS_PER_SEC: u128 = 1_000_000_000u128;

/// The number of nanoseconds in one millisecond.
pub const NANOS_PER_MILLI: u128 = 1_000_000u128;

/// The longest span a [`Duration`] can hold, in nanoseconds: `u64::MAX`
/// whole seconds and 999,999,999 nanoseconds.
pub const MAX_NANOS: u128 = 18_446_744_073_709_551_615_999_999_999u128;

/// `nanos`, or the length of the longest span where `nanos` exceeds it.
pub open spec fn capped(nanos: nat) -> nat {
    if nanos <= MAX_NANOS {
        nanos
    } else {
        MAX_NANOS as nat
    }
}

/// A span of time, held as a whole number of nanoseconds.
///
/// The range is that of `std::time::Duration`: every value splits into a
/// number of whole seconds that fits `u64` and a sub-second part below one
/// billion nanoseconds, and every such pair is a value.
#[derive(Clone, Copy, Debug, PartialEq, Eq, Structural)]
pub struct Duration {
    nanos: u128,
}

impl View for Duration {
    type V = nat;

    /// The span in nanoseconds.
    closed spec fn view(&self) -> nat {
        self.nanos as nat
    }
}

impl Duration {
    /// Whether the span lies within the representable range. Every value
    /// that executable code holds does.
    #[verifier::type_invariant]
    pub open spec fn is_valid(self) -> bool {
        self@ <= MAX_NANOS
    }

    /// The span of `nanos` nanoseconds.
    pub closed spec fn from_nanos_spec(nanos: nat) -> Duration {
        Duration { nanos: nanos as u128 }
    }

    /// The span multiplied by `rhs`, or the longest span if the product is
    /// out of range.
    pub open spec fn saturating_mul_spec(self, rhs: nat) -> Duration {
        Duration::from_nanos_spec(capped(self@ * rhs))
    }

    /// A span of `secs` whole seconds and `nanos` additional nanoseconds.
    /// Nanoseconds beyond one second count as further seconds. A total
    /// above the longest span gives the longest span.
    pub fn new(secs: u64, nanos: u32) -> (d: Duration)
        ensures
            d@ == capped((secs * NANOS_PER_SEC + nanos) as nat),
            d.is_valid(),
    {
        let total: u128 = (secs as u128) * NANOS_PER_SEC + (nanos as u128);
        if total <= MAX_NANOS {
            Duration { nanos: total }
        } else {
            Duration { nanos: MAX_NANOS }
        }
    }

    /// A span of `secs` whole seconds.
    pub fn from_secs(secs: u64) -> (d: Duration)
        ensures
            d@ == secs * NANOS_PER_SEC,
            d.is_valid(),
    {
        Duration { nanos: (secs as u128) * NANOS_PER_SEC }
    }

    /// A span of `millis` milliseconds.
    pub fn from_millis(millis: u64) -> (d: Duration)
        ensures
            d@ == millis * NANOS_PER_MILLI,
            d.is_valid(),
    {
        Duration { nanos: (millis as u128) * NANOS_PER_MILLI }
    }

    /// The number of whole seconds in the span.
    pub fn as_secs(&self) -> (secs: u64)
        ensures
            secs == self@ / (NANOS_PER_SEC as nat),
    {
        proof {
            use_type_invariant(self);
        }
        (self.nanos / NANOS_PER_SEC) as u64
    }

    /// The part of the span below one second, in nanoseconds.
    pub fn subsec_nanos(&self) -> (nanos: u32)
        ensures
            nanos == self@ % (NANOS_PER_SEC as nat),
            nanos < NANOS_PER_SEC,
    {
        (self.nanos % NANOS_PER_SEC) as u32
    }

    /// The whole span in nanoseconds.
    pub fn as_nanos(&self) -> (nanos: u128)
        ensures
            nanos == self@,
            nanos <= MAX_NANOS,
    {
        proof {
            use_type_invariant(self);
        }
        self.nanos
    }

    /// Multiplies the span by `rhs`, stopping at the longest span instead of
    /// overflowing.
    pub fn saturating_mul(self, rhs: u32) -> (d: Duration)
        ensures
            d == self.saturating_mul_spec(rhs as nat),
            d.is_valid(),
    {
        proof {
            use_type_invariant(self);
            assert(self.nanos * rhs <= MAX_NANOS * 0xffff_ffff) by (nonlinear_arith)
                requires
                    self.nanos <= MAX_NANOS,
                    rhs <= 0xffff_ffff,
            ;
        }
        let product: u128 = self.nanos * (rhs as u128);
        if product <= MAX_NANOS {
            Duration { nanos: product }
        } else {
            Duration { nanos: MAX_NANOS }
        }
    }
}

/// Spans of the same length are the same span.
pub proof fn lemma_duration_eq(a: Duration, b: Duration)
    requires
        a@ == b@,
    ensures
        a == b,
{
}

/// The length of the span built from an in-range number of nanoseconds is
/// that number.
pub proof fn lemma_from_nanos(nanos: nat)
    requires
        nanos <= MAX_NANOS,
    ensures
        Duration::from_nanos_spec(nanos)@ == nanos,
{
}

/// A saturating product lies within the representable range: in
/// nanoseconds it is the product, capped at the longest span.
pub proof fn lemma_saturating_mul(span: Duration, rhs: nat)
    ensures
        span.saturating_mul_spec(rhs).is_valid(),
        span.saturating_mul_spec(rhs)@ == capped(span@ * rhs),
{
}

} // verus!
