//! The retry behaviour that an error type declares, and the configuration
//! of a session that follows from it.
use vstd::prelude::*;
use log::Level;
use crate::backoff::ErrorBackoff;
use crate::duration::Duration;
use crate::notify::LogOnRetry;
use crate::policy::RetryPolicy;

verus! {

/// What a [`RetryConfig`] holds.
pub struct RetryConfigView {
    /// The number of retries allowed after the first attempt.
    pub max_retries: u32,
    /// The level at which retries are logged, if they are.
    pub level: Option<Level>,
    /// The delay before the first retry that uses the default backoff.
    pub initial_delay: Duration,
}

/// The retry configuration of one session for errors of type `E`: the retry
/// budget, the notifier and the backoff in its initial state.
pub struct RetryConfig<E: ?Sized> {
    max_retries: u32,
    on_retry: LogOnRetry,
    backoff: ErrorBackoff<E>,
}

impl<E: ?Sized> View for RetryConfig<E> {
    type V = RetryConfigView;

    closed spec fn view(&self) -> RetryConfigView {
        RetryConfigView {
            max_retries: self.max_retries,
            level: self.on_retry@,
            initial_delay: self.backoff@,
        }
    }
}

impl<E: ?Sized> RetryConfig<E> {
    /// A configuration that allows `max_retries` retries, notifies through
    /// `on_retry` and waits as `backoff` says.
    pub fn new(max_retries: u32, on_retry: LogOnRetry, backoff: ErrorBackoff<E>) -> (config: Self)
        ensures
            config@ == (RetryConfigView {
                max_retries,
                level: on_retry@,
                initial_delay: backoff@,
            }),
    {
        RetryConfig { max_retries, on_retry, backoff }
    }

    /// The number of retries allowed after the first attempt.
    pub fn max_retries(&self) -> (max_retries: u32)
        ensures
            max_retries == self@.max_retries,
    {
        self.max_retries
    }

    /// Takes the configuration apart: the retry budget, the notifier and
    /// the backoff.
    pub fn into_parts(self) -> (parts: (u32, LogOnRetry, ErrorBackoff<E>))
        ensures
            parts.0 == self@.max_retries,
            parts.1@ == self@.level,
            parts.2@ == self@.initial_delay,
    {
        (self.max_retries, self.on_retry, self.backoff)
    }
}

/// Retry behaviour of an error type.
///
/// The first three functions describe the type as a whole and are asked
/// once per session. The fourth is asked of every error value that ends an
/// attempt, so that one value may forbid a retry that another allows.
pub trait Retryable {
    /// The maximum number of retries. With `0` an operation is tried once.
    fn max_retries() -> u32;

    /// The delay before the first retry.
    fn default_initial_delay() -> Duration;

    /// The level at which retries are logged; `None` disables logging.
    fn log_level() -> Option<Level>;

    /// The policy that this error value asks for; `None` stands for the
    /// default backoff.
    fn custom_retry_policy(&self) -> Option<RetryPolicy>;

    /// A fresh backoff that starts at the default initial delay.
    fn new_backoff() -> (backoff: ErrorBackoff<Self>)
        ensures
            call_ensures(Self::default_initial_delay, (), backoff@),
    {
        ErrorBackoff::new(Self::default_initial_delay())
    }

    /// A fresh configuration with what the type declares: its retry budget,
    /// a notifier at its log level and its backoff.
    fn retry_config() -> (config: RetryConfig<Self>)
        ensures
            call_ensures(Self::max_retries, (), config@.max_retries),
            call_ensures(Self::log_level, (), config@.level),
            call_ensures(Self::default_initial_delay, (), config@.initial_delay),
    {
        let max_retries = Self::max_retries();
        let on_retry = LogOnRetry::new(Self::log_level());
        RetryConfig::new(max_retries, on_retry, Self::new_backoff())
    }
}

} // verus!
