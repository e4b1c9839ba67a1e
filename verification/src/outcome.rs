//! What a whole session comes to, given how the attempts fail.
//!
//! An operation is described by the failures of its attempts, in order:
//! for each failed attempt, the override that its error brings. An
//! operation that outlives the list succeeds on its next attempt. The
//! session meets the failures one by one, as [`decide`] says, until it
//! gives up or the operation succeeds.
use vstd::prelude::*;
use vstd::arithmetic::power2::pow2;
use crate::backoff::{default_delay, lemma_default_delay, policy_for};
use crate::duration::{capped, lemma_saturating_mul, Duration};
use crate::policy::RetryPolicy;
use crate::config::RetryConfigView;
use crate::session::{decide, Decision, SessionView};

verus! {

/// How a session ended.
pub struct Outcome {
    /// The number of attempts made.
    pub attempts: nat,
    /// The delays of the retries in order, one for each notification.
    pub delays: Seq<Duration>,
    /// Whether the session gave up, returning the error of its last
    /// attempt, rather than saw the operation succeed.
    pub gave_up: bool,
}

/// The outcome of a session that goes on from `state` with an operation
/// whose attempts fail as `failures` says.
pub open spec fn run(state: SessionView, failures: Seq<Option<RetryPolicy>>) -> Outcome
    decreases failures.len(),
{
    if failures.len() == 0 {
        Outcome { attempts: 1, delays: Seq::empty(), gave_up: false }
    } else {
        match decide(state, failures[0]).1 {
            Decision::GiveUp => Outcome { attempts: 1, delays: Seq::empty(), gave_up: true },
            Decision::Retry(delay) => {
                let rest = run(decide(state, failures[0]).0, failures.skip(1));
                Outcome {
                    attempts: rest.attempts + 1,
                    delays: seq![delay] + rest.delays,
                    gave_up: rest.gave_up,
                }
            },
        }
    }
}

/// The state of a session that went on from `state` and has answered each
/// of `failures` with a retry.
pub open spec fn state_after(state: SessionView, failures: Seq<Option<RetryPolicy>>) -> SessionView
    decreases failures.len(),
{
    if failures.len() == 0 {
        state
    } else {
        state_after(decide(state, failures[0]).0, failures.skip(1))
    }
}

/// Whether none of the failures forbids a retry.
pub open spec fn never_stops(failures: Seq<Option<RetryPolicy>>) -> bool {
    forall|i: int| 0 <= i < failures.len() ==> failures[i] != Some(RetryPolicy::Stop)
}

/// The number of failures that leave the delay to the default backoff.
pub open spec fn defaults_in(failures: Seq<Option<RetryPolicy>>) -> nat
    decreases failures.len(),
{
    if failures.len() == 0 {
        0
    } else if failures[0] is None {
        1 + defaults_in(failures.skip(1))
    } else {
        defaults_in(failures.skip(1))
    }
}

/// A session starts with its first attempt, its whole budget and the
/// initial delay.
pub proof fn lemma_start(config: RetryConfigView)
    ensures
        SessionView::start(config).attempt == 1,
        SessionView::start(config).retries_left() == config.max_retries,
        SessionView::start(config).delay == config.initial_delay,
        config.initial_delay.is_valid() ==> SessionView::start(config).is_valid(),
{
}

/// A decision leaves the session in a state it can be in, with one retry
/// less to go where it grants one.
pub proof fn lemma_decide_valid(state: SessionView, custom: Option<RetryPolicy>)
    requires
        state.is_valid(),
    ensures
        decide(state, custom).0.is_valid(),
        decide(state, custom).1 is Retry ==> decide(state, custom).0.retries_left() + 1
            == state.retries_left(),
        decide(state, custom).1 is GiveUp ==> decide(state, custom).0 == state,
        state.retries_left() == 0 ==> decide(state, custom).1 is GiveUp,
        custom == Some(RetryPolicy::Stop) ==> decide(state, custom).1 is GiveUp,
        state.retries_left() > 0 && custom != Some(RetryPolicy::Stop) ==> decide(state, custom).1
            == Decision::Retry(policy_for(state.delay, custom)->Delay_0),
{
    lemma_saturating_mul(state.delay, 2);
}

/// A run goes on failure by failure. While it has not given up, it has
/// made one attempt more than it has met failures, and one more failure is
/// decided in the state it has reached: a retry extends the run, and giving
/// up ends it on that failure.
pub proof fn lemma_run_push(
    state: SessionView,
    failures: Seq<Option<RetryPolicy>>,
    custom: Option<RetryPolicy>,
)
    requires
        !run(state, failures).gave_up,
    ensures
        run(state, failures).attempts == failures.len() + 1,
        decide(state_after(state, failures), custom).1 is Retry ==> {
            &&& !run(state, failures.push(custom)).gave_up
            &&& run(state, failures.push(custom)).attempts == failures.len() + 2
            &&& run(state, failures.push(custom)).delays == run(state, failures).delays.push(
                decide(state_after(state, failures), custom).1->Retry_0,
            )
            &&& state_after(state, failures.push(custom)) == decide(
                state_after(state, failures),
                custom,
            ).0
        },
        decide(state_after(state, failures), custom).1 is GiveUp ==> {
            &&& run(state, failures.push(custom)).gave_up
            &&& run(state, failures.push(custom)).attempts == failures.len() + 1
            &&& run(state, failures.push(custom)).delays == run(state, failures).delays
        },
    decreases failures.len(),
{
    let longer = failures.push(custom);
    if failures.len() == 0 {
        reveal_with_fuel(run, 2);
        reveal_with_fuel(state_after, 2);
        assert(longer.skip(1) =~= Seq::empty());
        assert(longer[0] == custom);
        if decide(state, custom).1 is Retry {
            assert(run(state, longer).delays =~= run(state, failures).delays.push(
                decide(state, custom).1->Retry_0,
            ));
        }
    } else {
        let next = decide(state, failures[0]).0;
        assert(longer.skip(1) =~= failures.skip(1).push(custom));
        assert(longer[0] == failures[0]);
        lemma_run_push(next, failures.skip(1), custom);
        if decide(state_after(state, failures), custom).1 is Retry {
            assert(run(state, longer).delays =~= run(state, failures).delays.push(
                decide(state_after(state, failures), custom).1->Retry_0,
            ));
        } else {
            assert(run(state, longer).delays =~= run(state, failures).delays);
        }
    }
}

/// Every retry is notified once and nothing else is: a session makes one
/// attempt more than it issues notifications. It never makes more attempts
/// than the budget allows, which is one more than the retries left, and it
/// gives up only on a failure, which is then the last it has seen.
pub proof fn lemma_run_counts(state: SessionView, failures: Seq<Option<RetryPolicy>>)
    ensures
        run(state, failures).delays.len() + 1 == run(state, failures).attempts,
        run(state, failures).attempts <= state.retries_left() + 1,
        run(state, failures).gave_up ==> run(state, failures).attempts <= failures.len(),
        !run(state, failures).gave_up ==> run(state, failures).attempts == failures.len() + 1,
    decreases failures.len(),
{
    if failures.len() > 0 {
        if decide(state, failures[0]).1 is Retry {
            lemma_run_counts(decide(state, failures[0]).0, failures.skip(1));
        }
    }
}

/// An operation that keeps failing, with no error that forbids a retry
/// while retries are left, is attempted once more than retries are left,
/// once for each and once at first. Each retry is notified, and the session
/// gives up on the failure of the last attempt.
///
/// For a session at its start the retries left are `max_retries`: the
/// operation is attempted `max_retries + 1` times.
pub proof fn lemma_exhausted(state: SessionView, failures: Seq<Option<RetryPolicy>>)
    requires
        failures.len() > state.retries_left(),
        never_stops(failures.take(state.retries_left() as int)),
    ensures
        run(state, failures).attempts == state.retries_left() + 1,
        run(state, failures).delays.len() == state.retries_left(),
        run(state, failures).gave_up,
    decreases failures.len(),
{
    let left = state.retries_left() as int;
    if left > 0 {
        assert(failures.take(left)[0] == failures[0]);
        let next = decide(state, failures[0]).0;
        assert(next.retries_left() == left - 1);
        assert(failures.skip(1).take(left - 1) =~= failures.take(left).skip(1));
        lemma_exhausted(next, failures.skip(1));
    }
}

/// An operation that succeeds on attempt `k`, after `k - 1` failures none
/// of which forbids a retry and all of which the budget covers, is
/// attempted `k` times and no more. The `k - 1` retries are notified, and
/// the session does not give up.
pub proof fn lemma_succeeds(state: SessionView, failures: Seq<Option<RetryPolicy>>)
    requires
        failures.len() <= state.retries_left(),
        never_stops(failures),
    ensures
        run(state, failures).attempts == failures.len() + 1,
        run(state, failures).delays.len() == failures.len(),
        !run(state, failures).gave_up,
    decreases failures.len(),
{
    if failures.len() > 0 {
        let next = decide(state, failures[0]).0;
        assert(next.retries_left() == state.retries_left() - 1);
        assert(never_stops(failures.skip(1))) by {
            assert forall|i: int| 0 <= i < failures.skip(1).len() implies failures.skip(1)[i]
                != Some(RetryPolicy::Stop) by {
                assert(failures.skip(1)[i] == failures[i + 1]);
            }
        }
        lemma_succeeds(next, failures.skip(1));
    }
}

/// An error that forbids a retry ends the session on the spot. Where the
/// failure of attempt `k + 1` is the first to do so, and the budget covers
/// the `k` failures before it, the operation is attempted `k + 1` times,
/// the `k` retries before are notified, and the session gives up on that
/// failure, whatever is left of the budget.
pub proof fn lemma_stopped(state: SessionView, failures: Seq<Option<RetryPolicy>>, k: int)
    requires
        0 <= k < failures.len(),
        k <= state.retries_left(),
        failures[k] == Some(RetryPolicy::Stop),
        never_stops(failures.take(k)),
    ensures
        run(state, failures).attempts == k + 1,
        run(state, failures).delays.len() == k,
        run(state, failures).gave_up,
    decreases failures.len(),
{
    if k > 0 {
        assert(failures.take(k)[0] == failures[0]);
        let next = decide(state, failures[0]).0;
        assert(next.retries_left() == state.retries_left() - 1);
        assert(failures.skip(1).take(k - 1) =~= failures.take(k).skip(1));
        assert(failures.skip(1)[k - 1] == failures[k]);
        lemma_stopped(next, failures.skip(1), k - 1);
    }
}

/// The delay of each retry is the override that the failure brings, where
/// it brings one, and else the default delay for as many doublings as
/// failures before it were left to the default.
///
/// So an override is used as it is, for its own retry only: the default
/// delays before and after it do not depend on its value, nor on how many
/// overrides there were.
pub proof fn lemma_delays(state: SessionView, failures: Seq<Option<RetryPolicy>>, i: int)
    requires
        state.delay.is_valid(),
        0 <= i < run(state, failures).delays.len(),
    ensures
        i < failures.len(),
        RetryPolicy::Delay(run(state, failures).delays[i]) == policy_for(
            default_delay(state.delay, defaults_in(failures.take(i))),
            failures[i],
        ),
    decreases failures.len(),
{
    let next = decide(state, failures[0]).0;
    lemma_default_delay(state.delay, 0);
    lemma_saturating_mul(state.delay, 2);
    if i == 0 {
        assert(failures.take(0) =~= Seq::empty());
    } else {
        let before = defaults_in(failures.skip(1).take(i - 1));
        lemma_default_delay(state.delay, before);
        lemma_delays(next, failures.skip(1), i - 1);
        assert(failures.take(i).skip(1) =~= failures.skip(1).take(i - 1));
        assert(failures.take(i)[0] == failures[0]);
        assert(failures.skip(1)[i - 1] == failures[i]);
    }
}

/// An override counts for its own retry alone. With another delay in its
/// place the session makes the same attempts and ends the same way, and
/// every other retry waits as long as before.
pub proof fn lemma_override_is_local(
    state: SessionView,
    failures: Seq<Option<RetryPolicy>>,
    j: int,
    other: Duration,
)
    requires
        0 <= j < failures.len(),
        failures[j] is Some,
        failures[j] != Some(RetryPolicy::Stop),
    ensures
        ({
            let changed = failures.update(j, Some(RetryPolicy::Delay(other)));
            let before = run(state, failures);
            let after = run(state, changed);
            &&& after.attempts == before.attempts
            &&& after.gave_up == before.gave_up
            &&& after.delays == if j < before.delays.len() {
                before.delays.update(j, other)
            } else {
                before.delays
            }
        }),
    decreases failures.len(),
{
    let changed = failures.update(j, Some(RetryPolicy::Delay(other)));
    if j == 0 {
        assert(changed.skip(1) =~= failures.skip(1));
        if decide(state, failures[0]).1 is Retry {
            assert(run(state, changed).delays =~= run(state, failures).delays.update(0, other));
        }
    } else {
        assert(changed.skip(1) =~= failures.skip(1).update(
            j - 1,
            Some(RetryPolicy::Delay(other)),
        ));
        if decide(state, failures[0]).1 is Retry {
            let next = decide(state, failures[0]).0;
            lemma_override_is_local(next, failures.skip(1), j - 1, other);
            if j - 1 < run(next, failures.skip(1)).delays.len() {
                assert(run(state, changed).delays =~= run(state, failures).delays.update(
                    j,
                    other,
                ));
            }
        }
    }
}

/// Without overrides the delays double from one retry to the next: the
/// delay of retry `i`, counted from 0, is the initial delay times two to the
/// power of `i`, capped at the longest span.
pub proof fn lemma_default_delays(state: SessionView, failures: Seq<Option<RetryPolicy>>, i: int)
    requires
        state.delay.is_valid(),
        forall|j: int| 0 <= j < failures.len() ==> failures[j] is None,
        0 <= i < run(state, failures).delays.len(),
    ensures
        run(state, failures).delays[i] == default_delay(state.delay, i as nat),
        run(state, failures).delays[i]@ == capped(state.delay@ * pow2(i as nat)),
{
    lemma_delays(state, failures, i);
    lemma_all_defaults(failures.take(i));
    lemma_default_delay(state.delay, i as nat);
}

/// Where every failure is left to the default backoff, as many are as
/// there are failures.
pub proof fn lemma_all_defaults(failures: Seq<Option<RetryPolicy>>)
    requires
        forall|j: int| 0 <= j < failures.len() ==> failures[j] is None,
    ensures
        defaults_in(failures) == failures.len(),
    decreases failures.len(),
{
    if failures.len() > 0 {
        lemma_all_defaults(failures.skip(1));
    }
}

} // verus!
