use chrono::{Datelike, Local, TimeZone, Timelike};
use kid_internet_lock::clock::{local_at, local_now, unix_time_now, MAX_TIMESTAMP, MIN_TIMESTAMP};

#[test]
fn now_fields_are_in_range() {
    let m = local_now().unwrap();
    assert!(m.secs >= 0);
    assert!(m.nanos < 1_000_000_000);
    assert!((1..=12).contains(&m.month));
    assert!((1..=31).contains(&m.day));
    assert!(m.weekday < 7 && m.hour < 24 && m.minute < 60);
}

#[test]
fn local_moment_of_an_instant() {
    let m = local_at(1_789_000_000, 5).unwrap();
    let dt = Local.timestamp_opt(1_789_000_000, 5).unwrap();
    assert_eq!((m.secs, m.nanos), (1_789_000_000, 5));
    assert_eq!((m.month, m.day, m.hour, m.minute), (dt.month(), dt.day(), dt.hour(), dt.minute()));
    assert_eq!(m.weekday, dt.weekday().num_days_from_monday());
    assert!(local_at(0, 0).is_some());
    assert!(local_at(i64::MAX, 0).is_none());
}

#[test]
fn clock_reading_after_the_epoch() {
    let (secs, nanos) = unix_time_now().unwrap();
    assert!(secs > 1_600_000_000);
    assert!(nanos < 1_000_000_000);
    let m = local_now().unwrap();
    assert!(m.secs >= secs as i64);
}

#[test]
fn local_moments_over_the_whole_range() {
    assert_eq!(local_at(MAX_TIMESTAMP, 0).unwrap().secs, MAX_TIMESTAMP);
    assert!(local_at(MAX_TIMESTAMP + 1, 0).is_none());
    assert_eq!(local_at(MIN_TIMESTAMP, 999_999_999).unwrap().secs, MIN_TIMESTAMP);
    assert!(local_at(MIN_TIMESTAMP - 1, 0).is_none());
}
