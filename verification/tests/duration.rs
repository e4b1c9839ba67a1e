use retryable::duration::{MAX_NANOS, NANOS_PER_MILLI, NANOS_PER_SEC};
use retryable::Duration;

#[test]
fn constructors_agree_on_the_length() {
    assert_eq!(Duration::from_millis(250).as_nanos(), 250_000_000);
    assert_eq!(Duration::from_secs(3).as_nanos(), 3_000_000_000);
    assert_eq!(Duration::new(1, 500_000_000).as_nanos(), 1_500_000_000);
    assert_eq!(Duration::from_millis(1500), Duration::new(1, 500_000_000));
    assert_eq!(Duration::from_secs(2), Duration::from_millis(2000));
    assert_eq!(Duration::new(0, 0).as_nanos(), 0);
}

#[test]
fn new_carries_whole_seconds_out_of_the_nanoseconds() {
    let span = Duration::new(2, 3_250_000_000);
    assert_eq!(span.as_secs(), 5);
    assert_eq!(span.subsec_nanos(), 250_000_000);
    assert_eq!(span, Duration::new(5, 250_000_000));
}

#[test]
fn new_stops_at_the_longest_span() {
    let longest = Duration::new(u64::MAX, 999_999_999);
    assert_eq!(Duration::new(u64::MAX, 1_000_000_000), longest);
    assert_eq!(Duration::new(u64::MAX, u32::MAX), longest);
    assert_eq!(Duration::new(u64::MAX - 4, u32::MAX).as_secs(), u64::MAX);
    assert_eq!(Duration::new(u64::MAX - 4, u32::MAX).subsec_nanos(), 294_967_295);
    assert_eq!(Duration::new(u64::MAX - 3, u32::MAX), longest);
}

#[test]
fn seconds_and_subsecond_part_split_the_length() {
    let span = Duration::from_millis(12_345);
    assert_eq!(span.as_secs(), 12);
    assert_eq!(span.subsec_nanos(), 345_000_000);
    let short = Duration::new(0, 999_999_999);
    assert_eq!(short.as_secs(), 0);
    assert_eq!(short.subsec_nanos(), 999_999_999);
}

#[test]
fn constants_are_consistent() {
    assert_eq!(NANOS_PER_SEC, 1_000_000_000);
    assert_eq!(NANOS_PER_MILLI, 1_000_000);
    assert_eq!(MAX_NANOS, u64::MAX as u128 * NANOS_PER_SEC + 999_999_999);
}

#[test]
fn the_longest_span_matches_std() {
    let longest = Duration::new(u64::MAX, 999_999_999);
    assert_eq!(longest.as_nanos(), MAX_NANOS);
    assert_eq!(longest.as_nanos(), std::time::Duration::MAX.as_nanos());
    assert_eq!(longest.as_secs(), u64::MAX);
    assert_eq!(longest.subsec_nanos(), 999_999_999);
}

#[test]
fn largest_inputs_stay_in_range() {
    assert_eq!(Duration::from_secs(u64::MAX).as_secs(), u64::MAX);
    assert_eq!(Duration::from_secs(u64::MAX).subsec_nanos(), 0);
    assert_eq!(
        Duration::from_millis(u64::MAX).as_nanos(),
        std::time::Duration::from_millis(u64::MAX).as_nanos()
    );
}

#[test]
fn saturating_mul_multiplies_in_range() {
    assert_eq!(Duration::from_millis(250).saturating_mul(2), Duration::from_millis(500));
    assert_eq!(Duration::from_millis(250).saturating_mul(0), Duration::new(0, 0));
    assert_eq!(Duration::from_millis(250).saturating_mul(1), Duration::from_millis(250));
    assert_eq!(
        Duration::new(1, 1).saturating_mul(u32::MAX).as_nanos(),
        1_000_000_001u128 * u32::MAX as u128
    );
}

#[test]
fn saturating_mul_stops_at_the_longest_span() {
    let longest = Duration::new(u64::MAX, 999_999_999);
    assert_eq!(longest.saturating_mul(2), longest);
    assert_eq!(Duration::from_secs(u64::MAX).saturating_mul(2), longest);
    assert_eq!(Duration::from_secs(u64::MAX / 2 + 1).saturating_mul(2), longest);
    let half = Duration::from_secs(u64::MAX / 2);
    assert_eq!(half.saturating_mul(2), Duration::from_secs(u64::MAX - 1));
    assert_eq!(longest.saturating_mul(0), Duration::new(0, 0));
}

#[test]
fn saturating_mul_agrees_with_std() {
    let cases: [(u64, u32, u32); 5] = [
        (0, 1, 2),
        (7, 999_999_999, 3),
        (u64::MAX / 3, 5, 3),
        (u64::MAX / 3 + 1, 0, 3),
        (u64::MAX, 999_999_999, u32::MAX),
    ];
    for (secs, nanos, factor) in cases {
        let ours = Duration::new(secs, nanos).saturating_mul(factor);
        let theirs = std::time::Duration::new(secs, nanos).saturating_mul(factor);
        assert_eq!(ours.as_secs(), theirs.as_secs());
        assert_eq!(ours.subsec_nanos(), theirs.subsec_nanos());
    }
}
