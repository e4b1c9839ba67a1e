//! The notification issued before a retry: an optional log record.
use vstd::prelude::*;
use log::Level;
use std::fmt::Debug;
use crate::duration::Duration;
use crate::message::{debug_text, format_retry_message, retry_message};

verus! {

/// `log::Level`, the severity of a log record. Its values are carried from
/// the error type's configuration to the record and never inspected.
#[verifier::external_type_specification]
#[verifier::external_body]
pub struct ExLevel(Level);

/// What a [`LogFuture`] holds: the level to log at, if any, and the message
/// that has not been logged yet, if any.
pub struct LogFutureState {
    pub level: Option<Level>,
    pub message: Option<Seq<char>>,
}

impl LogFutureState {
    /// The notification that logs nothing.
    pub open spec fn idle() -> LogFutureState {
        LogFutureState { level: None, message: None }
    }

    /// Whether the notification may be polled: it logs nothing, or it still
    /// holds its message.
    pub open spec fn can_poll(self) -> bool {
        self.level is Some ==> self.message is Some
    }

    /// The record that polling emits, if any.
    pub open spec fn record(self) -> Option<(Level, Seq<char>)> {
        match (self.level, self.message) {
            (Some(level), Some(message)) => Some((level, message)),
            _ => None,
        }
    }

    /// The notification once it has been polled.
    pub open spec fn polled(self) -> LogFutureState {
        match self.level {
            Some(_) => LogFutureState { level: self.level, message: None },
            None => self,
        }
    }
}

/// The notification for one retry: at most one log record, handed out the
/// first time it is polled.
#[derive(Debug)]
pub struct LogFuture {
    level: Option<Level>,
    message: Option<String>,
}

impl View for LogFuture {
    type V = LogFutureState;

    closed spec fn view(&self) -> LogFutureState {
        LogFutureState {
            level: self.level,
            message: match self.message {
                Some(message) => Some(message@),
                None => None,
            },
        }
    }
}

impl LogFuture {
    /// The level of the record, if the notification logs at all.
    pub fn level(&self) -> (level: Option<Level>)
        ensures
            level == self@.level,
    {
        self.level
    }

    /// Whether the notification may be polled. One that logs may be polled
    /// once; one that logs nothing, any number of times.
    pub fn can_poll(&self) -> (ok: bool)
        ensures
            ok == self@.can_poll(),
    {
        self.level.is_none() || self.message.is_some()
    }

    /// Completes the notification and hands out the record to emit, if any.
    ///
    /// A notification that logs gives up its message with the level to log
    /// it at, and must not be polled again. One that logs nothing returns
    /// `None` and stays as it is.
    pub fn poll(&mut self) -> (record: Option<(Level, String)>)
        requires
            old(self)@.can_poll(),
        ensures
            final(self)@ == old(self)@.polled(),
            match record {
                Some((level, message)) => old(self)@.record() == Some((level, message@)),
                None => old(self)@.record() is None,
            },
    {
        match self.level {
            Some(level) => {
                let message = self.message.take();
                match message {
                    Some(message) => Some((level, message)),
                    None => None,
                }
            },
            None => None,
        }
    }
}

/// The notification that an error type's log level and one retry give.
///
/// A record is due when a level is configured and a further attempt
/// follows after `next_delay`; in every other case nothing is logged.
pub open spec fn notification_for(
    level: Option<Level>,
    attempts: u32,
    next_delay: Option<Duration>,
    error: Seq<char>,
) -> LogFutureState {
    match (level, next_delay) {
        (Some(level), Some(delay)) => LogFutureState {
            level: Some(level),
            message: Some(retry_message(attempts, delay, error)),
        },
        _ => LogFutureState::idle(),
    }
}

/// Logs retries at the level that the error type configures.
#[derive(Clone, Copy, Debug)]
pub struct LogOnRetry {
    level: Option<Level>,
}

impl View for LogOnRetry {
    type V = Option<Level>;

    /// The configured level.
    closed spec fn view(&self) -> Option<Level> {
        self.level
    }
}

impl LogOnRetry {
    /// A notifier that logs at `level`, or not at all if there is none.
    pub fn new(level: Option<Level>) -> (notifier: Self)
        ensures
            notifier@ == level,
    {
        LogOnRetry { level }
    }

    /// The configured level.
    pub fn level(&self) -> (level: Option<Level>)
        ensures
            level == self@,
    {
        self.level
    }

    /// The notification for the failed attempt number `attempts`, whose
    /// error prints as `error`, with the next attempt due after
    /// `next_delay`.
    pub fn notification(&self, attempts: u32, next_delay: Option<Duration>, error: &str) -> (future:
        LogFuture)
        ensures
            future@ == notification_for(self@, attempts, next_delay, error@),
    {
        match (self.level, next_delay) {
            (Some(level), Some(delay)) => LogFuture {
                level: Some(level),
                message: Some(format_retry_message(attempts, delay, error)),
            },
            _ => LogFuture { level: None, message: None },
        }
    }

    /// The notification for the failed attempt number `attempts`, which
    /// ended in `previous_error`, with the next attempt due after
    /// `next_delay`.
    ///
    /// The error is formatted only where a record is due. Its text is
    /// whatever its `Debug` implementation writes, so the result is that of
    /// [`LogOnRetry::notification`] for some text.
    pub fn on_retry<E: Debug + ?Sized>(
        &mut self,
        attempts: u32,
        next_delay: Option<Duration>,
        previous_error: &E,
    ) -> (future: LogFuture)
        ensures
            *final(self) == *old(self),
            exists|error: Seq<char>|
                future@ == #[trigger] notification_for(old(self)@, attempts, next_delay, error),
    {
        if self.level.is_some() && next_delay.is_some() {
            let error = debug_text(previous_error);
            self.notification(attempts, next_delay, error.as_str())
        } else {
            proof {
                let error = Seq::<char>::empty();
                assert(notification_for(self@, attempts, next_delay, error)
                    == LogFutureState::idle());
            }
            LogFuture { level: None, message: None }
        }
    }
}

/// Without a configured level no retry is ever logged, and with one the
/// record of a retry carries that level and the retry's message.
pub proof fn lemma_notification_record(
    level: Option<Level>,
    attempts: u32,
    next_delay: Option<Duration>,
    error: Seq<char>,
)
    ensures
        level is None ==> notification_for(level, attempts, next_delay, error).record() is None,
        next_delay is None ==> notification_for(level, attempts, next_delay, error).record()
            is None,
        notification_for(level, attempts, next_delay, error).can_poll(),
        level is Some && next_delay is Some ==> notification_for(
            level,
            attempts,
            next_delay,
            error,
        ).record() == Some((level->0, retry_message(attempts, next_delay->0, error))),
{
}

} // verus!
