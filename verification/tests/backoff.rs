use retryable::{Duration, ErrorBackoff, RetryPolicy, Retryable};

#[derive(Debug, PartialEq, Eq)]
enum Failure {
    Busy,
    Throttled(u64),
    Denied,
}

impl Retryable for Failure {
    fn max_retries() -> u32 {
        7
    }

    fn default_initial_delay() -> Duration {
        Duration::from_millis(250)
    }

    fn log_level() -> Option<log::Level> {
        None
    }

    fn custom_retry_policy(&self) -> Option<RetryPolicy> {
        match self {
            Failure::Busy => None,
            Failure::Throttled(millis) => Some(RetryPolicy::Delay(Duration::from_millis(*millis))),
            Failure::Denied => Some(RetryPolicy::Stop),
        }
    }
}

fn millis(n: u64) -> RetryPolicy {
    RetryPolicy::Delay(Duration::from_millis(n))
}

#[test]
fn new_backoff_starts_at_the_default_initial_delay() {
    let backoff = Failure::new_backoff();
    assert_eq!(backoff.current_delay(), Duration::from_millis(250));
}

#[test]
fn default_delays_double() {
    let mut backoff = Failure::new_backoff();
    assert_eq!(backoff.delay(1, &Failure::Busy), millis(250));
    assert_eq!(backoff.delay(2, &Failure::Busy), millis(500));
    assert_eq!(backoff.delay(3, &Failure::Busy), millis(1000));
    assert_eq!(backoff.delay(4, &Failure::Busy), millis(2000));
    assert_eq!(backoff.current_delay(), Duration::from_millis(4000));
}

#[test]
fn the_attempt_number_does_not_matter() {
    let mut first = Failure::new_backoff();
    let mut second = Failure::new_backoff();
    for attempt in 1..=6 {
        assert_eq!(first.delay(attempt, &Failure::Busy), second.delay(99, &Failure::Busy));
    }
}

#[test]
fn an_override_is_returned_unchanged() {
    let mut backoff = Failure::new_backoff();
    assert_eq!(backoff.delay(1, &Failure::Throttled(100)), millis(100));
    assert_eq!(backoff.delay(2, &Failure::Throttled(7)), millis(7));
    assert_eq!(backoff.delay(3, &Failure::Denied), RetryPolicy::Stop);
    assert_eq!(backoff.current_delay(), Duration::from_millis(250));
}

#[test]
fn an_override_leaves_the_doubling_alone() {
    for custom in [1, 100, 250, 500, 60_000] {
        let mut backoff = Failure::new_backoff();
        assert_eq!(backoff.delay(1, &Failure::Busy), millis(250));
        assert_eq!(backoff.delay(2, &Failure::Throttled(custom)), millis(custom));
        assert_eq!(backoff.delay(3, &Failure::Busy), millis(500));
        assert_eq!(backoff.delay(4, &Failure::Throttled(custom)), millis(custom));
        assert_eq!(backoff.delay(5, &Failure::Busy), millis(1000));
    }
}

#[test]
fn next_answers_the_override_it_is_given() {
    let mut backoff = ErrorBackoff::<Failure>::new(Duration::from_secs(1));
    assert_eq!(backoff.next(None), RetryPolicy::Delay(Duration::from_secs(1)));
    assert_eq!(backoff.next(Some(millis(5))), millis(5));
    assert_eq!(backoff.next(Some(RetryPolicy::Stop)), RetryPolicy::Stop);
    assert_eq!(backoff.next(None), RetryPolicy::Delay(Duration::from_secs(2)));
    assert_eq!(backoff.current_delay(), Duration::from_secs(4));
}

#[test]
fn a_zero_delay_stays_zero() {
    let mut backoff = ErrorBackoff::<Failure>::new(Duration::new(0, 0));
    for _ in 0..5 {
        assert_eq!(backoff.next(None), RetryPolicy::Delay(Duration::new(0, 0)));
    }
}

#[test]
fn doubling_stops_at_the_longest_span() {
    let longest = Duration::new(u64::MAX, 999_999_999);
    let mut backoff = ErrorBackoff::<Failure>::new(Duration::from_secs(1 << 62));
    assert_eq!(backoff.next(None), RetryPolicy::Delay(Duration::from_secs(1 << 62)));
    assert_eq!(backoff.next(None), RetryPolicy::Delay(Duration::from_secs(1 << 63)));
    assert_eq!(backoff.next(None), RetryPolicy::Delay(longest));
    assert_eq!(backoff.next(None), RetryPolicy::Delay(longest));
    assert_eq!(backoff.current_delay(), longest);
}

#[test]
fn a_nanosecond_doubles_up_to_the_longest_span() {
    let mut backoff = ErrorBackoff::<Failure>::new(Duration::new(0, 1));
    for doublings in 0..94u32 {
        let nanos = 1u128 << doublings;
        let secs = (nanos / 1_000_000_000) as u64;
        let expected = Duration::new(secs, (nanos % 1_000_000_000) as u32);
        assert_eq!(backoff.next(None), RetryPolicy::Delay(expected));
    }
    let longest = Duration::new(u64::MAX, 999_999_999);
    assert_eq!(backoff.next(None), RetryPolicy::Delay(longest));
    assert_eq!(backoff.next(None), RetryPolicy::Delay(longest));
}
