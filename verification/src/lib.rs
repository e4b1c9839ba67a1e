//! Retry logic attached to error types.
//!
//! An error type describes how operations that fail with it are retried: how
//! many retries are allowed, how long to wait before the first one, whether
//! retries are logged, and whether a particular error value overrides the
//! default exponential backoff or forbids retrying altogether.
//!
//! A [`RetrySession`] counts the attempts of one operation and decides,
//! after each failure, whether and when to try again. It can be stepped by
//! hand, one result at a time, or left to run a blocking operation to the
//! end. Waiting and emitting log records are left to the caller.
//!
//! The decisions are proved against a mathematical model of a session, and
//! what follows for whole sessions is proved of the model: how many
//! attempts are made, which retries are notified, and how long each waits.
pub mod backoff;
pub mod config;
pub mod duration;
pub mod executor;
pub mod message;
pub mod notify;
pub mod outcome;
pub mod policy;
pub mod session;

pub use backoff::ErrorBackoff;
pub use config::{RetryConfig, Retryable};
pub use duration::Duration;
pub use executor::Report;
pub use notify::{LogFuture, LogOnRetry};
pub use policy::RetryPolicy;
pub use session::{Decision, Retry, RetrySession, RetryStep};
