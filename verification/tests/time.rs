use energy_proxy::time::{Timestamp, MAX_SECONDS, MIN_SECONDS};

#[test]
fn new_accepts_the_four_digit_years() {
    assert_eq!(Timestamp::new(0, 0), Some(Timestamp { secs: 0, nanos: 0 }));
    assert_eq!(
        Timestamp::new(MIN_SECONDS, 0),
        Some(Timestamp { secs: -62_167_219_200, nanos: 0 })
    );
    assert_eq!(
        Timestamp::new(MAX_SECONDS, 999_999_999),
        Some(Timestamp { secs: 253_402_300_799, nanos: 999_999_999 })
    );
}

#[test]
fn new_refuses_what_lies_outside() {
    assert_eq!(Timestamp::new(MIN_SECONDS - 1, 0), None);
    assert_eq!(Timestamp::new(MAX_SECONDS + 1, 0), None);
    assert_eq!(Timestamp::new(0, 1_000_000_000), None);
    assert_eq!(Timestamp::new(i64::MIN, 0), None);
    assert_eq!(Timestamp::new(i64::MAX, u32::MAX), None);
}

#[test]
fn hour_is_read_from_the_utc_day() {
    assert_eq!(Timestamp { secs: 1_714_564_800, nanos: 0 }.utc_hour(), 12);
    assert_eq!(Timestamp { secs: 1_714_564_799, nanos: 999_999_999 }.utc_hour(), 11);
    assert_eq!(Timestamp { secs: 0, nanos: 0 }.utc_hour(), 0);
    assert_eq!(Timestamp { secs: 86_399, nanos: 0 }.utc_hour(), 23);
    assert_eq!(Timestamp { secs: 3_600, nanos: 0 }.utc_hour(), 1);
}

#[test]
fn hour_before_the_epoch_counts_from_midnight() {
    assert_eq!(Timestamp { secs: -1, nanos: 0 }.utc_hour(), 23);
    assert_eq!(Timestamp { secs: -86_400, nanos: 0 }.utc_hour(), 0);
    assert_eq!(Timestamp { secs: -3_601, nanos: 0 }.utc_hour(), 22);
}

#[test]
fn hour_at_the_ends_of_the_range() {
    assert_eq!(Timestamp { secs: MIN_SECONDS, nanos: 0 }.utc_hour(), 0);
    assert_eq!(Timestamp { secs: MAX_SECONDS, nanos: 0 }.utc_hour(), 23);
}

#[test]
fn date_is_the_utc_calendar_day() {
    assert_eq!(Timestamp { secs: 1_714_564_800, nanos: 0 }.utc_date(), "2024-05-01");
    assert_eq!(Timestamp { secs: 1_714_607_999, nanos: 5 }.utc_date(), "2024-05-01");
    assert_eq!(Timestamp { secs: 1_714_608_000, nanos: 0 }.utc_date(), "2024-05-02");
    assert_eq!(Timestamp { secs: 0, nanos: 0 }.utc_date(), "1970-01-01");
    assert_eq!(Timestamp { secs: -1, nanos: 0 }.utc_date(), "1969-12-31");
    assert_eq!(Timestamp { secs: 1_709_164_800, nanos: 0 }.utc_date(), "2024-02-29");
}

#[test]
fn date_at_the_ends_of_the_range() {
    assert_eq!(Timestamp { secs: MIN_SECONDS, nanos: 0 }.utc_date(), "0000-01-01");
    assert_eq!(Timestamp { secs: MAX_SECONDS, nanos: 0 }.utc_date(), "9999-12-31");
}

#[test]
fn elapsed_time_is_compared_to_the_nanosecond() {
    let start = Timestamp { secs: 1_000, nanos: 500_000_000 };
    assert!(!Timestamp { secs: 1_300, nanos: 500_000_000 }.elapsed_since_exceeds(&start, 300));
    assert!(Timestamp { secs: 1_300, nanos: 500_000_001 }.elapsed_since_exceeds(&start, 300));
    assert!(!Timestamp { secs: 1_300, nanos: 499_999_999 }.elapsed_since_exceeds(&start, 300));
    assert!(Timestamp { secs: 1_301, nanos: 0 }.elapsed_since_exceeds(&start, 300));
    assert!(!Timestamp { secs: 1_000, nanos: 500_000_000 }.elapsed_since_exceeds(&start, 300));
}

#[test]
fn elapsed_time_may_be_negative() {
    let start = Timestamp { secs: 1_000, nanos: 0 };
    assert!(!Timestamp { secs: 0, nanos: 0 }.elapsed_since_exceeds(&start, 300));
    assert!(Timestamp { secs: 0, nanos: 0 }.elapsed_since_exceeds(&start, -1_001));
    assert!(!Timestamp { secs: 0, nanos: 0 }.elapsed_since_exceeds(&start, -1_000));
}

#[test]
fn elapsed_time_does_not_overflow() {
    let early = Timestamp { secs: i64::MIN, nanos: 0 };
    let late = Timestamp { secs: i64::MAX, nanos: u32::MAX };
    assert!(late.elapsed_since_exceeds(&early, i64::MAX));
    assert!(!early.elapsed_since_exceeds(&late, i64::MIN));
    assert!(!early.elapsed_since_exceeds(&late, 300));
}
