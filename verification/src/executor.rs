//! Running an operation under a retry session.
use vstd::prelude::*;
use vstd::arithmetic::power2::pow2;
use log::Level;
use std::fmt::Debug;
use crate::backoff::{default_delay, lemma_default_delay};
use crate::duration::{capped, Duration};
use crate::outcome::{
    lemma_all_defaults, lemma_delays, lemma_exhausted, lemma_run_counts, lemma_run_push,
    lemma_succeeds, never_stops, run, state_after,
};
use crate::policy::RetryPolicy;
use crate::config::Retryable;
use crate::session::{answers, Retry, RetrySession, RetryStep, SessionView};

verus! {

/// How a run ended.
#[derive(Debug)]
pub struct Report<T, E> {
    /// The result of the last attempt.
    pub result: Result<T, E>,
    /// The number of attempts made.
    pub attempts: u64,
    /// The delays waited for, one before each attempt but the first.
    pub delays: Vec<Duration>,
}

/// Whether `operation` can fail with an error that brings the override
/// `custom`.
pub open spec fn fails_with<T, E: Retryable, Op: FnOnce() -> Result<T, E>>(
    operation: Op,
    custom: Option<RetryPolicy>,
) -> bool {
    exists|error: E|
        {
            &&& #[trigger] call_ensures(operation, (), Err::<T, E>(error))
            &&& call_ensures(E::custom_retry_policy, (&error,), custom)
        }
}

/// Whether the failures `failures` account for a run of `operation` that
/// went on from `state` and ended with `report`.
///
/// The list holds one override for each attempt that failed. The attempts
/// made, the delays waited for and the way the run ended are those that
/// [`run`] gives for the list. Each override is one that an error of the
/// operation brings, except for a failure met with the budget used up,
/// which is not asked for its override.
pub open spec fn accounts_for<T, E: Retryable, Op: FnOnce() -> Result<T, E>>(
    failures: Seq<Option<RetryPolicy>>,
    state: SessionView,
    operation: Op,
    report: Report<T, E>,
) -> bool {
    &&& run(state, failures).attempts == report.attempts
    &&& run(state, failures).delays == report.delays@
    &&& run(state, failures).gave_up == report.result is Err
    &&& failures.len() == if report.result is Err {
        report.attempts as int
    } else {
        report.attempts - 1
    }
    &&& forall|i: int|
        0 <= i < failures.len() && i < state.retries_left() ==> fails_with::<T, E, Op>(
            operation,
            #[trigger] failures[i],
        )
}

/// An operation that never succeeds, and none of whose errors forbids a
/// retry, is attempted once and then once for every retry left: with the
/// whole budget of `max_retries`, that is `max_retries + 1` times. The run
/// ends with an error.
pub proof fn lemma_failing_operation<T, E: Retryable, Op: FnOnce() -> Result<T, E>>(
    failures: Seq<Option<RetryPolicy>>,
    state: SessionView,
    operation: Op,
    report: Report<T, E>,
)
    requires
        accounts_for(failures, state, operation, report),
        call_ensures(operation, (), report.result),
        forall|value: T| !call_ensures(operation, (), Ok::<T, E>(value)),
        !fails_with::<T, E, Op>(operation, Some(RetryPolicy::Stop)),
    ensures
        report.result is Err,
        report.attempts == state.retries_left() + 1,
{
    let left = state.retries_left() as int;
    assert(report.result is Err) by {
        if report.result is Ok {
            assert(report.result == Ok::<T, E>(report.result->Ok_0));
        }
    }
    if failures.len() <= left {
        assert(never_stops(failures));
        lemma_succeeds(state, failures);
    } else {
        assert(never_stops(failures.take(left))) by {
            assert forall|i: int| 0 <= i < left implies failures.take(left)[i] != Some(
                RetryPolicy::Stop,
            ) by {
                assert(failures.take(left)[i] == failures[i]);
            }
        }
        lemma_exhausted(state, failures);
    }
}

/// An operation none of whose errors brings an override waits twice as
/// long before each retry as before the one before: the delay of retry
/// `i`, counted from 0, is the delay that the session started with times
/// two to the power of `i`, capped at the longest span.
pub proof fn lemma_default_operation<T, E: Retryable, Op: FnOnce() -> Result<T, E>>(
    failures: Seq<Option<RetryPolicy>>,
    state: SessionView,
    operation: Op,
    report: Report<T, E>,
    i: int,
)
    requires
        accounts_for(failures, state, operation, report),
        state.delay.is_valid(),
        forall|custom: Option<RetryPolicy>| #[trigger]
            fails_with::<T, E, Op>(operation, custom) ==> custom is None,
        0 <= i < report.delays.len(),
    ensures
        report.delays[i] == default_delay(state.delay, i as nat),
        report.delays[i]@ == capped(state.delay@ * pow2(i as nat)),
{
    lemma_run_counts(state, failures);
    lemma_delays(state, failures, i);
    lemma_all_defaults(failures.take(i));
    lemma_default_delay(state.delay, i as nat);
}

impl<E: Retryable + Debug> RetrySession<E> {
    /// Runs `operation` until it succeeds or the session gives up, and
    /// returns the result of the last attempt as it is.
    ///
    /// Each attempt is one call of `operation`. After a failure that is
    /// granted a retry, the notification of the retry is completed: its
    /// record, if it has one, is handed to `emit`. Then `wait` is called
    /// with the delay of the retry, and after that the next attempt is
    /// made. Nothing else is called.
    ///
    /// At most one attempt is made at first and one for every retry left.
    /// Some list of failures accounts for the run, as [`accounts_for`] says.
    pub fn run<T, Op, Emit, Wait>(self, operation: Op, emit: Emit, wait: Wait) -> (report: Report<
        T,
        E,
    >) where
        Op: FnMut() -> Result<T, E>,
        Emit: FnMut(Level, String),
        Wait: FnMut(Duration),

        requires
            call_requires(operation, ()),
            forall|level: Level, message: String| call_requires(emit, (level, message)),
            forall|delay: Duration| call_requires(wait, (delay,)),
        ensures
            call_ensures(operation, (), report.result),
            1 <= report.attempts <= self@.retries_left() + 1,
            report.delays.len() + 1 == report.attempts,
            exists|failures: Seq<Option<RetryPolicy>>| #[trigger]
                accounts_for(failures, self@, operation, report),
    {
        let mut session = self;
        let mut perform = operation;
        let mut emit = emit;
        let mut wait = wait;
        let first = session.attempt();
        let mut delays: Vec<Duration> = Vec::new();
        let ghost start = session@;
        let ghost mut failures: Seq<Option<RetryPolicy>> = Seq::empty();
        loop
            invariant
                perform == operation,
                call_requires(perform, ()),
                forall|level: Level, message: String| call_requires(emit, (level, message)),
                forall|delay: Duration| call_requires(wait, (delay,)),
                start == self@,
                first == start.attempt,
                session@ == state_after(start, failures),
                !run(start, failures).gave_up,
                run(start, failures).attempts == failures.len() + 1,
                run(start, failures).delays == delays@,
                session@.attempt == start.attempt + failures.len(),
                failures.len() + session@.retries_left() == start.retries_left(),
                forall|i: int|
                    0 <= i < failures.len() ==> fails_with::<T, E, Op>(
                        operation,
                        #[trigger] failures[i],
                    ),
            decreases session@.retries_left(),
        {
            let ghost before = session@;
            let result = perform();
            let step = session.on_result(result);
            proof {
                if result is Err {
                    let error = result->Err_0;
                    assert(result == Err::<T, E>(error));
                    let custom = if before.retries_left() == 0 {
                        None
                    } else {
                        let (custom, text) = choose|custom: Option<RetryPolicy>, text: Seq<char>|
                            {
                                &&& call_ensures(E::custom_retry_policy, (&error,), custom)
                                &&& #[trigger] answers(
                                    before,
                                    custom,
                                    text,
                                    session@,
                                    step.retry(),
                                )
                            };
                        assert(call_ensures(operation, (), Err::<T, E>(error)));
                        assert(fails_with::<T, E, Op>(operation, custom));
                        custom
                    };
                    lemma_run_push(start, failures, custom);
                    failures = failures.push(custom);
                }
            }
            match step {
                RetryStep::Finished(result) => {
                    let attempts = session.attempt() - first + 1;
                    let report = Report { result, attempts, delays };
                    proof {
                        lemma_run_counts(start, failures);
                        assert(accounts_for(failures, start, operation, report));
                    }
                    return report;
                },
                RetryStep::Retry(retry) => {
                    let Retry { delay, mut notification } = retry;
                    match notification.poll() {
                        Some((level, message)) => emit(level, message),
                        None => {},
                    }
                    delays.push(delay);
                    wait(delay);
                },
            }
        }
    }
}

} // verus!
