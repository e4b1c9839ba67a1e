//! What to do after a failed attempt.
use vstd::prelude::*;
use crate::duration::Duration;

verus! {

/// The decision taken after a failed attempt.
#[derive(Clone, Copy, Debug, PartialEq, Eq, Structural)]
pub enum RetryPolicy {
    /// Wait for the given span, then try again.
    Delay(Duration),
    /// Do not try again, whatever is left of the retry budget.
    Stop,
}

} // verus!
