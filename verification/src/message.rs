//! The text of the log record for a retry.
use vstd::prelude::*;
use vstd::string::*;
use std::fmt::Debug;
use crate::duration::{Duration, NANOS_PER_SEC};

verus! {

/// The text that `std::time::Duration`'s `Debug` implementation prints for a
/// span of `secs` whole seconds and `subsec_nanos` nanoseconds.
pub uninterp spec fn duration_debug(secs: u64, subsec_nanos: u32) -> Seq<char>;

/// Formats a span with `std::time::Duration`'s `Debug` implementation.
///
/// Trusted: the result is the text that this implementation prints for the
/// span, which depends on the two numbers alone. With a sub-second part
/// below one billion `Duration::new` carries nothing and cannot overflow.
#[verifier::external_body]
fn duration_text(secs: u64, subsec_nanos: u32) -> (text: String)
    requires
        subsec_nanos < NANOS_PER_SEC,
    ensures
        text@ == duration_debug(secs, subsec_nanos),
{
    format!("{:?}", std::time::Duration::new(secs, subsec_nanos))
}

/// Formats a value with its own `Debug` implementation.
///
/// Trusted only to return: nothing is claimed of the text, which is
/// whatever the implementation for `E` writes.
#[verifier::external_body]
pub(crate) fn debug_text<E: Debug + ?Sized>(value: &E) -> (text: String) {
    format!("{:?}", value)
}

/// The decimal digit for `d`, which is below ten.
pub open spec fn digit(d: nat) -> char {
    seq!['0', '1', '2', '3', '4', '5', '6', '7', '8', '9'][d as int]
}

/// `n` in decimal, without sign or leading zeros.
pub open spec fn decimal(n: nat) -> Seq<char>
    decreases n,
{
    if n < 10 {
        seq![digit(n)]
    } else {
        decimal(n / 10).push(digit(n % 10))
    }
}

/// The message of the log record for a retry: the number of the attempt
/// that failed, the delay before the next one, and the error as its `Debug`
/// implementation printed it.
pub open spec fn retry_message(attempts: u32, delay: Duration, error: Seq<char>) -> Seq<char> {
    "Retry "@ + decimal(attempts as nat) + "; waiting "@ + duration_debug(
        (delay@ / (NANOS_PER_SEC as nat)) as u64,
        (delay@ % (NANOS_PER_SEC as nat)) as u32,
    ) + " after error: "@ + error
}

fn digit_text(d: u32) -> (text: &'static str)
    requires
        d < 10,
    ensures
        text@ == seq![digit(d as nat)],
{
    proof {
        reveal_strlit("0123456789");
    }
    let text = "0123456789".substring_ascii(d as usize, d as usize + 1);
    assert(text@ =~= seq![digit(d as nat)]);
    text
}

/// Writes `n` in decimal.
pub fn decimal_text(n: u32) -> (text: String)
    ensures
        text@ == decimal(n as nat),
    decreases n,
{
    if n < 10 {
        String::from_str(digit_text(n))
    } else {
        let mut text = decimal_text(n / 10);
        text.append(digit_text(n % 10));
        assert(text@ =~= decimal(n as nat));
        text
    }
}

/// Composes the message of the log record for a retry.
pub fn format_retry_message(attempts: u32, delay: Duration, error: &str) -> (message: String)
    ensures
        message@ == retry_message(attempts, delay, error@),
{
    let number = decimal_text(attempts);
    let span = duration_text(delay.as_secs(), delay.subsec_nanos());
    let mut message = String::from_str("Retry ");
    message.append(number.as_str());
    message.append("; waiting ");
    message.append(span.as_str());
    message.append(" after error: ");
    message.append(error);
    message
}

} // verus!
