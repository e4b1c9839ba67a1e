//! One retry session: counting attempts and deciding, after each failure,
//! whether and when to try again.
use vstd::prelude::*;
use log::Level;
use std::fmt::Debug;
use crate::backoff::{delay_after, policy_for, ErrorBackoff};
use crate::duration::Duration;
use crate::notify::{notification_for, LogFuture, LogFutureState, LogOnRetry};
use crate::policy::RetryPolicy;
use crate::config::{RetryConfig, RetryConfigView, Retryable};

verus! {

/// The state of a retry session.
pub struct SessionView {
    /// The number of retries allowed after the first attempt.
    pub max_retries: u32,
    /// The number of the attempt in progress, counted from 1.
    pub attempt: nat,
    /// The delay that the next failure without an override is given.
    pub delay: Duration,
    /// The level at which retries are logged, if they are.
    pub level: Option<Level>,
}

impl SessionView {
    /// The state in which a session with the configuration `config` starts.
    pub open spec fn start(config: RetryConfigView) -> SessionView {
        SessionView {
            max_retries: config.max_retries,
            attempt: 1,
            delay: config.initial_delay,
            level: config.level,
        }
    }

    /// Whether a session can be in this state: no more retries have been
    /// made than are allowed.
    pub open spec fn is_valid(self) -> bool {
        &&& 1 <= self.attempt <= self.max_retries + 1
        &&& self.delay.is_valid()
    }

    /// The number of retries that the budget still allows.
    pub open spec fn retries_left(self) -> nat {
        if self.attempt > self.max_retries {
            0
        } else {
            (self.max_retries + 1 - self.attempt) as nat
        }
    }
}

/// What a session decides when an attempt has failed.
#[derive(Clone, Copy, Debug, PartialEq, Eq, Structural)]
pub enum Decision {
    /// Try again after the given delay.
    Retry(Duration),
    /// Return the error of the attempt that has just failed.
    GiveUp,
}

/// The decision on a failed attempt whose error brought the override
/// `custom`, and the state in which the session goes on.
///
/// With the budget used up the session gives up without asking for a
/// policy. Otherwise the policy decides: `Stop` gives up at once, and a
/// delay grants a retry, which starts the next attempt and, where the
/// default backoff was used, doubles the default delay.
pub open spec fn decide(state: SessionView, custom: Option<RetryPolicy>) -> (
    SessionView,
    Decision,
) {
    if state.attempt > state.max_retries {
        (state, Decision::GiveUp)
    } else {
        match policy_for(state.delay, custom) {
            RetryPolicy::Stop => (state, Decision::GiveUp),
            RetryPolicy::Delay(delay) => (
                SessionView {
                    attempt: state.attempt + 1,
                    delay: delay_after(state.delay, custom),
                    ..state
                },
                Decision::Retry(delay),
            ),
        }
    }
}

/// What is to be done before the next attempt.
#[derive(Debug)]
pub struct Retry {
    /// How long to wait, after the notification has completed.
    pub delay: Duration,
    /// The notification of this retry.
    pub notification: LogFuture,
}

/// What a session does with the result of an attempt.
#[derive(Debug)]
pub enum RetryStep<T, E> {
    /// The session is over, with this result.
    Finished(Result<T, E>),
    /// The operation is to be tried again.
    Retry(Retry),
}

impl<T, E> RetryStep<T, E> {
    /// The retry that the step asks for, if it does.
    pub open spec fn retry(self) -> Option<Retry> {
        match self {
            RetryStep::Finished(_) => None,
            RetryStep::Retry(retry) => Some(retry),
        }
    }
}

/// Whether a session in the state `before` answers a failure, whose error
/// brought the override `custom` and prints as `error`, by going on in the
/// state `after` with `retry`.
///
/// The state and the decision are those of [`decide`]. A retry waits for
/// the delay decided, and its notification is the one due for the number
/// of the failed attempt, that delay and the error's text.
pub open spec fn answers(
    before: SessionView,
    custom: Option<RetryPolicy>,
    error: Seq<char>,
    after: SessionView,
    retry: Option<Retry>,
) -> bool {
    &&& after == decide(before, custom).0
    &&& match decide(before, custom).1 {
        Decision::GiveUp => retry is None,
        Decision::Retry(delay) => {
            &&& retry is Some
            &&& retry->0.delay == delay
            &&& retry->0.notification@ == notification_for(
                before.level,
                before.attempt as u32,
                Some(delay),
                error,
            )
        },
    }
}

/// A session without a log level stays without one and logs nothing: the
/// notification of each of its retries is idle, whatever the number of the
/// attempt, the delay and the error.
pub proof fn lemma_silent_without_level(
    before: SessionView,
    custom: Option<RetryPolicy>,
    error: Seq<char>,
    after: SessionView,
    retry: Option<Retry>,
)
    requires
        before.level is None,
        answers(before, custom, error, after, retry),
    ensures
        after.level is None,
        retry is Some ==> retry->0.notification@ == LogFutureState::idle(),
        retry is Some ==> retry->0.notification@.record() is None,
{
}

/// A retry session for errors of type `E`.
pub struct RetrySession<E: ?Sized> {
    max_retries: u32,
    retries: u32,
    on_retry: LogOnRetry,
    backoff: ErrorBackoff<E>,
}

impl<E: ?Sized> View for RetrySession<E> {
    type V = SessionView;

    closed spec fn view(&self) -> SessionView {
        SessionView {
            max_retries: self.max_retries,
            attempt: (self.retries + 1) as nat,
            delay: self.backoff@,
            level: self.on_retry@,
        }
    }
}

impl<E: ?Sized> RetrySession<E> {
    /// A session about to make its first attempt.
    pub fn new(config: RetryConfig<E>) -> (session: Self)
        ensures
            session@ == SessionView::start(config@),
    {
        let (max_retries, on_retry, backoff) = config.into_parts();
        RetrySession { max_retries, retries: 0, on_retry, backoff }
    }

    /// The number of the attempt in progress, counted from 1.
    pub fn attempt(&self) -> (attempt: u64)
        ensures
            attempt == self@.attempt,
    {
        self.retries as u64 + 1
    }

    /// The number of retries that the budget still allows.
    pub fn retries_left(&self) -> (left: u32)
        ensures
            left == self@.retries_left(),
    {
        if self.retries >= self.max_retries {
            0
        } else {
            self.max_retries - self.retries
        }
    }

    /// Decides on a failed attempt whose error brought the override
    /// `custom`.
    pub fn decide(&mut self, custom: Option<RetryPolicy>) -> (decision: Decision)
        ensures
            (final(self)@, decision) == decide(old(self)@, custom),
    {
        if self.retries >= self.max_retries {
            return Decision::GiveUp;
        }
        match self.backoff.next(custom) {
            RetryPolicy::Stop => Decision::GiveUp,
            RetryPolicy::Delay(delay) => {
                self.retries = self.retries + 1;
                Decision::Retry(delay)
            },
        }
    }
}

impl<E: Retryable + Debug + ?Sized> RetrySession<E> {
    /// Answers the failure of the attempt in progress, which ended in
    /// `error`: `None` to give up, or the retry to make.
    ///
    /// The error is asked for its override once, and only while retries are
    /// left. A retry is notified with the number of the failed attempt.
    pub fn on_failure(&mut self, error: &E) -> (retry: Option<Retry>)
        ensures
            old(self)@.retries_left() == 0 ==> retry is None && final(self)@ == old(self)@,
            old(self)@.retries_left() > 0 ==> exists|custom: Option<RetryPolicy>, text: Seq<char>|
                {
                    &&& call_ensures(E::custom_retry_policy, (error,), custom)
                    &&& #[trigger] answers(old(self)@, custom, text, final(self)@, retry)
                },
    {
        if self.retries >= self.max_retries {
            return None;
        }
        let custom = error.custom_retry_policy();
        let decision = self.decide(custom);
        match decision {
            Decision::GiveUp => {
                proof {
                    let text = Seq::<char>::empty();
                    assert(answers(old(self)@, custom, text, self@, None));
                }
                None
            },
            Decision::Retry(delay) => {
                let notification = self.on_retry.on_retry(self.retries, Some(delay), error);
                let retry = Retry { delay, notification };
                proof {
                    let text = choose|text: Seq<char>|
                        notification@ == #[trigger] notification_for(
                            old(self)@.level,
                            self.retries,
                            Some(delay),
                            text,
                        );
                    assert(answers(old(self)@, custom, text, self@, Some(retry)));
                }
                Some(retry)
            },
        }
    }
}

impl<E: Retryable + Debug> RetrySession<E> {
    /// Takes the result of the attempt in progress and says how the session
    /// goes on.
    ///
    /// A success ends the session at once with its value, and nothing is
    /// notified. A failure is answered as [`RetrySession::on_failure`]
    /// says; where the session gives up, it ends with that very error.
    pub fn on_result<T>(&mut self, result: Result<T, E>) -> (step: RetryStep<T, E>)
        ensures
            match result {
                Ok(_) => step == RetryStep::Finished(result) && final(self)@ == old(self)@,
                Err(error) => {
                    &&& step is Finished ==> step == RetryStep::Finished(result)
                    &&& old(self)@.retries_left() == 0 ==> step is Finished && final(self)@ == old(
                        self,
                    )@
                    &&& old(self)@.retries_left() > 0 ==> exists|
                        custom: Option<RetryPolicy>,
                        text: Seq<char>,
                    |
                        {
                            &&& call_ensures(E::custom_retry_policy, (&error,), custom)
                            &&& #[trigger] answers(
                                old(self)@,
                                custom,
                                text,
                                final(self)@,
                                step.retry(),
                            )
                        }
                },
            },
    {
        match result {
            Ok(value) => RetryStep::Finished(Ok(value)),
            Err(error) => match self.on_failure(&error) {
                None => RetryStep::Finished(Err(error)),
                Some(retry) => RetryStep::Retry(retry),
            },
        }
    }
}

} // verus!
