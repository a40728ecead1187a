use chrono::{DateTime, Utc};
use wayle_services::time::{stays_in_range, Timestamp, MAX_MILLIS, MIN_MILLIS};

#[test]
fn the_range_is_that_of_dates() {
    assert_eq!(MIN_MILLIS, DateTime::<Utc>::MIN_UTC.timestamp_millis());
    assert_eq!(MAX_MILLIS, DateTime::<Utc>::MAX_UTC.timestamp_millis());
    assert!(DateTime::<Utc>::from_timestamp_millis(MIN_MILLIS).is_some());
    assert!(DateTime::<Utc>::from_timestamp_millis(MIN_MILLIS - 1).is_none());
    assert!(DateTime::<Utc>::from_timestamp_millis(MAX_MILLIS).is_some());
    assert!(DateTime::<Utc>::from_timestamp_millis(MAX_MILLIS + 1).is_none());
    assert!(Timestamp::from_timestamp_millis(MIN_MILLIS).is_some());
    assert!(Timestamp::from_timestamp_millis(MIN_MILLIS - 1).is_none());
    assert!(Timestamp::from_timestamp_millis(MAX_MILLIS).is_some());
    assert!(Timestamp::from_timestamp_millis(MAX_MILLIS + 1).is_none());
}

#[test]
fn milliseconds_survive() {
    for millis in [0, 1, -1, 999, -999, 1_700_000_000_123, MIN_MILLIS, MAX_MILLIS] {
        let time = Timestamp::from_timestamp_millis(millis).expect("it is a date");
        assert_eq!(time.timestamp_millis(), millis);
        assert_eq!(time.nanos(), millis as i128 * 1_000_000);
    }
}

#[test]
fn milliseconds_are_rounded_down() {
    let before = Timestamp::from_nanos(-1).expect("it is a date");
    assert_eq!(before.timestamp_millis(), -1);
    let after = Timestamp::from_nanos(1_999_999).expect("it is a date");
    assert_eq!(after.timestamp_millis(), 1);
    let chrono_before = DateTime::<Utc>::from_timestamp_nanos(-1);
    assert_eq!(chrono_before.timestamp_millis(), -1);
}

#[test]
fn nanoseconds_out_of_range_are_no_time() {
    assert!(Timestamp::from_nanos(i128::MAX).is_none());
    assert!(Timestamp::from_nanos(i128::MIN).is_none());
    let last = (MAX_MILLIS as i128 + 1) * 1_000_000 - 1;
    assert!(Timestamp::from_nanos(last).is_some());
    assert!(Timestamp::from_nanos(last + 1).is_none());
}

#[test]
fn timeouts_end_at_a_date_or_not() {
    let last = Timestamp::from_timestamp_millis(MAX_MILLIS).expect("it is a date");
    assert!(stays_in_range(last, 0));
    assert!(!stays_in_range(last, 1));
}

#[test]
fn the_clock_agrees_with_chrono() {
    let before = Utc::now().timestamp_millis();
    let now = Timestamp::now().timestamp_millis();
    let after = Utc::now().timestamp_millis();
    assert!(before <= now && now <= after);
}
