//! Exponential backoff that single errors may override.
use vstd::prelude::*;
use vstd::arithmetic::power2::{lemma2_to64, lemma_pow2_pos, lemma_pow2_unfold, pow2};
use std::marker::PhantomData;
use crate::duration::{capped, lemma_duration_eq, lemma_from_nanos, Duration, MAX_NANOS};
use crate::policy::RetryPolicy;
use crate::config::Retryable;

verus! {

/// The policy for a failed attempt: the error's own policy where it has
/// one, else a wait of `current`.
pub open spec fn policy_for(current: Duration, custom: Option<RetryPolicy>) -> RetryPolicy {
    match custom {
        Some(policy) => policy,
        None => RetryPolicy::Delay(current),
    }
}

/// The default delay that follows `current` once the attempt with the
/// override `custom` has been answered: doubled where the default was used,
/// unchanged where the error brought its own policy.
pub open spec fn delay_after(current: Duration, custom: Option<RetryPolicy>) -> Duration {
    match custom {
        Some(_) => current,
        None => current.saturating_mul_spec(2),
    }
}

/// The delay of the attempt that uses the default backoff after `doublings`
/// earlier attempts have done so, in a session whose first default delay is
/// `initial`: `initial` times two to the power of `doublings`, or the
/// longest span where that is out of range.
pub open spec fn default_delay(initial: Duration, doublings: nat) -> Duration {
    initial.saturating_mul_spec(pow2(doublings))
}

/// The default delays of a session: the first is the initial delay, each
/// later one is what doubling its predecessor gives, and in nanoseconds the
/// one after `doublings` others is the initial delay times two to that
/// power, capped at the longest span.
pub proof fn lemma_default_delay(initial: Duration, doublings: nat)
    requires
        initial.is_valid(),
    ensures
        default_delay(initial, 0) == initial,
        default_delay(initial, doublings).is_valid(),
        default_delay(initial, doublings + 1) == default_delay(
            initial,
            doublings,
        ).saturating_mul_spec(2),
        default_delay(initial, doublings + 1) == default_delay(
            initial.saturating_mul_spec(2),
            doublings,
        ),
        default_delay(initial, doublings)@ == capped(initial@ * pow2(doublings)),
{
    let p = pow2(doublings);
    let n = initial@;
    lemma_pow2_pos(doublings);
    lemma_pow2_unfold(doublings + 1);
    assert(pow2(0) == 1) by {
        lemma2_to64();
    }
    assert(n * (2 * p) == (n * p) * 2 && n * (2 * p) == (n * 2) * p) by (nonlinear_arith);
    assert(n * 2 > MAX_NANOS ==> n * (2 * p) > MAX_NANOS) by (nonlinear_arith)
        requires
            p >= 1,
    ;
    lemma_from_nanos(n);
    lemma_from_nanos(MAX_NANOS as nat);
    if n * p <= MAX_NANOS {
        lemma_from_nanos(n * p);
    }
    if n * 2 <= MAX_NANOS {
        lemma_from_nanos(n * 2);
    }
    lemma_duration_eq(default_delay(initial, 0), initial);
}

/// The backoff state of one retry session for errors of type `E`.
pub struct ErrorBackoff<E: ?Sized> {
    delay: Duration,
    _error: PhantomData<E>,
}

impl<E: ?Sized> View for ErrorBackoff<E> {
    type V = Duration;

    /// The delay that the next attempt without an override will be given.
    closed spec fn view(&self) -> Duration {
        self.delay
    }
}

impl<E: ?Sized> ErrorBackoff<E> {
    /// A backoff whose first default delay is `initial_delay`.
    pub fn new(initial_delay: Duration) -> (backoff: Self)
        ensures
            backoff@ == initial_delay,
    {
        ErrorBackoff { delay: initial_delay, _error: PhantomData }
    }

    /// The delay that the next attempt without an override will be given.
    pub fn current_delay(&self) -> (delay: Duration)
        ensures
            delay == self@,
    {
        self.delay
    }

    /// Answers a failed attempt whose error brought the override `custom`.
    ///
    /// An override is returned as it is and leaves the backoff untouched.
    /// Without one the current delay is returned and then doubled, stopping
    /// at the longest span.
    pub fn next(&mut self, custom: Option<RetryPolicy>) -> (policy: RetryPolicy)
        ensures
            policy == policy_for(old(self)@, custom),
            final(self)@ == delay_after(old(self)@, custom),
    {
        match custom {
            Some(policy) => policy,
            None => {
                let previous = self.delay;
                self.delay = previous.saturating_mul(2);
                RetryPolicy::Delay(previous)
            },
        }
    }
}

impl<E: Retryable + ?Sized> ErrorBackoff<E> {
    /// Answers a failed attempt that ended in `error`.
    ///
    /// The error is asked for its override once, and the answer is that of
    /// [`ErrorBackoff::next`] for what it said. The number of the attempt
    /// plays no part.
    pub fn delay(&mut self, _attempt: u32, error: &E) -> (policy: RetryPolicy)
        ensures
            exists|custom: Option<RetryPolicy>|
                {
                    &&& #[trigger] call_ensures(E::custom_retry_policy, (error,), custom)
                    &&& policy == policy_for(old(self)@, custom)
                    &&& final(self)@ == delay_after(old(self)@, custom)
                },
    {
        let custom = error.custom_retry_policy();
        self.next(custom)
    }
}

} // verus!
