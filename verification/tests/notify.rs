use log::Level;
use retryable::message::{decimal_text, format_retry_message};
use retryable::{Duration, LogOnRetry};

#[derive(Debug)]
#[allow(dead_code)]
enum Failure {
    Timeout,
    Status(u16),
    Message(String),
}

#[derive(Debug)]
#[allow(dead_code)]
struct Detailed {
    code: i32,
    reason: &'static str,
}

#[test]
fn decimal_text_writes_plain_decimal() {
    assert_eq!(decimal_text(0), "0");
    assert_eq!(decimal_text(7), "7");
    assert_eq!(decimal_text(10), "10");
    assert_eq!(decimal_text(407), "407");
    assert_eq!(decimal_text(1_000_000), "1000000");
    assert_eq!(decimal_text(u32::MAX), "4294967295");
}

#[test]
fn decimal_text_agrees_with_display() {
    let mut n: u32 = 1;
    for _ in 0..32 {
        assert_eq!(decimal_text(n), n.to_string());
        assert_eq!(decimal_text(n - 1), (n - 1).to_string());
        n = n.wrapping_mul(2).max(1);
    }
    for n in [9, 11, 99, 100, 101, 12_345, 1_234_567_890, 4_000_000_000] {
        assert_eq!(decimal_text(n), n.to_string());
    }
}

#[test]
fn retry_message_has_attempt_delay_and_error() {
    assert_eq!(
        format_retry_message(1, Duration::from_millis(250), "Timeout"),
        "Retry 1; waiting 250ms after error: Timeout"
    );
    assert_eq!(
        format_retry_message(12, Duration::from_secs(2), "Status(503)"),
        "Retry 12; waiting 2s after error: Status(503)"
    );
    assert_eq!(
        format_retry_message(3, Duration::from_millis(1500), ""),
        "Retry 3; waiting 1.5s after error: "
    );
}

#[test]
fn retry_message_formats_the_delay_as_std_does() {
    let cases: [(u64, u32); 8] = [
        (0, 0),
        (0, 1),
        (0, 1_500),
        (0, 250_000_000),
        (1, 0),
        (1, 500_000_000),
        (90, 1),
        (u64::MAX, 999_999_999),
    ];
    for (secs, nanos) in cases {
        let expected = format!(
            "Retry {}; waiting {:?} after error: {}",
            5,
            std::time::Duration::new(secs, nanos),
            "boom"
        );
        assert_eq!(format_retry_message(5, Duration::new(secs, nanos), "boom"), expected);
    }
}

#[test]
fn on_retry_formats_the_error_with_debug() {
    let mut notifier = LogOnRetry::new(Some(Level::Warn));
    let mut future = notifier.on_retry(3, Some(Duration::from_millis(1500)), &Failure::Status(503));
    assert_eq!(future.level(), Some(Level::Warn));
    assert_eq!(
        future.poll(),
        Some((Level::Warn, "Retry 3; waiting 1.5s after error: Status(503)".to_string()))
    );

    let mut future = notifier.on_retry(
        1,
        Some(Duration::from_millis(250)),
        &Failure::Message("baz".to_string()),
    );
    assert_eq!(
        future.poll(),
        Some((Level::Warn, "Retry 1; waiting 250ms after error: Message(\"baz\")".to_string()))
    );

    let detailed = Detailed { code: -2, reason: "gone" };
    let mut future = notifier.on_retry(2, Some(Duration::from_secs(4)), &detailed);
    assert_eq!(
        future.poll(),
        Some((
            Level::Warn,
            "Retry 2; waiting 4s after error: Detailed { code: -2, reason: \"gone\" }".to_string()
        ))
    );
}

#[test]
fn on_retry_matches_the_plain_format() {
    let mut notifier = LogOnRetry::new(Some(Level::Info));
    let error = Failure::Timeout;
    let delay = std::time::Duration::from_micros(1_250);
    let expected = format!("Retry {}; waiting {:?} after error: {:?}", 4u32, delay, error);
    let mut future = notifier.on_retry(4, Some(Duration::new(0, 1_250_000)), &error);
    assert_eq!(future.poll(), Some((Level::Info, expected)));
}

#[test]
fn on_retry_agrees_with_notification() {
    let mut notifier = LogOnRetry::new(Some(Level::Debug));
    let delay = Some(Duration::from_millis(40));
    let mut from_error = notifier.on_retry(9, delay, &Failure::Status(429));
    let mut from_text = notifier.notification(9, delay, "Status(429)");
    assert_eq!(from_error.poll(), from_text.poll());
}

#[test]
fn the_record_has_the_configured_level() {
    for level in [Level::Error, Level::Warn, Level::Info, Level::Debug, Level::Trace] {
        let mut notifier = LogOnRetry::new(Some(level));
        assert_eq!(notifier.level(), Some(level));
        let mut future = notifier.on_retry(1, Some(Duration::from_secs(1)), &Failure::Timeout);
        assert_eq!(future.level(), Some(level));
        let (logged_at, _) = future.poll().unwrap();
        assert_eq!(logged_at, level);
    }
}

#[test]
fn without_a_level_nothing_is_logged() {
    let mut notifier = LogOnRetry::new(None);
    assert_eq!(notifier.level(), None);
    for attempts in [0, 1, 2, 3, 10, 1_000, u32::MAX] {
        for delay in [None, Some(Duration::new(0, 0)), Some(Duration::from_millis(250))] {
            let mut future = notifier.on_retry(attempts, delay, &Failure::Timeout);
            assert_eq!(future.level(), None);
            assert!(future.can_poll());
            assert_eq!(future.poll(), None);
            let mut future = notifier.notification(attempts, delay, "Timeout");
            assert_eq!(future.poll(), None);
        }
    }
}

#[test]
fn without_a_next_delay_nothing_is_logged() {
    for level in [Level::Error, Level::Trace] {
        let mut notifier = LogOnRetry::new(Some(level));
        let mut future = notifier.on_retry(8, None, &Failure::Timeout);
        assert_eq!(future.level(), None);
        assert_eq!(future.poll(), None);
    }
}

#[test]
fn a_record_is_handed_out_once() {
    let mut notifier = LogOnRetry::new(Some(Level::Error));
    let mut future = notifier.on_retry(1, Some(Duration::from_secs(1)), &Failure::Timeout);
    assert!(future.can_poll());
    assert!(future.poll().is_some());
    assert!(!future.can_poll());
    assert_eq!(future.level(), Some(Level::Error));
}

#[test]
fn an_idle_notification_may_be_polled_again() {
    let mut notifier = LogOnRetry::new(None);
    let mut future = notifier.on_retry(1, Some(Duration::from_secs(1)), &Failure::Timeout);
    for _ in 0..3 {
        assert!(future.can_poll());
        assert_eq!(future.poll(), None);
    }
}

#[test]
fn on_retry_leaves_the_notifier_as_it_was() {
    let mut notifier = LogOnRetry::new(Some(Level::Info));
    let _ = notifier.on_retry(1, Some(Duration::from_secs(1)), &Failure::Timeout);
    let _ = notifier.on_retry(2, None, &Failure::Timeout);
    assert_eq!(notifier.level(), Some(Level::Info));
}
