//! The activity-log record format and the clock boundary.

use pomodoro::clock::now_timestamp;
use pomodoro::logline::log_line;
use pomodoro::logline::Timestamp;

#[test]
fn record_has_the_fixed_format() {
    let ts = Timestamp::new(2024, 3, 7, 9, 5, 30).unwrap();
    assert_eq!(log_line(&ts), b"pomodoro - 2024-03-07 09:05:30".to_vec());
}

#[test]
fn record_pads_every_field() {
    let ts = Timestamp::new(1, 1, 1, 0, 0, 0).unwrap();
    assert_eq!(log_line(&ts), b"pomodoro - 0001-01-01 00:00:00".to_vec());
}

#[test]
fn record_at_the_widest_fields() {
    let ts = Timestamp::new(9999, 12, 31, 23, 59, 59).unwrap();
    assert_eq!(log_line(&ts), b"pomodoro - 9999-12-31 23:59:59".to_vec());
}

#[test]
fn year_zero_formats_to_four_zeros() {
    let ts = Timestamp::new(0, 6, 15, 12, 30, 45).unwrap();
    assert_eq!(log_line(&ts), b"pomodoro - 0000-06-15 12:30:45".to_vec());
}

#[test]
fn out_of_range_fields_are_rejected() {
    assert!(Timestamp::new(-1, 1, 1, 0, 0, 0).is_none());
    assert!(Timestamp::new(10000, 1, 1, 0, 0, 0).is_none());
    assert!(Timestamp::new(2024, 0, 1, 0, 0, 0).is_none());
    assert!(Timestamp::new(2024, 13, 1, 0, 0, 0).is_none());
    assert!(Timestamp::new(2024, 1, 0, 0, 0, 0).is_none());
    assert!(Timestamp::new(2024, 1, 32, 0, 0, 0).is_none());
    assert!(Timestamp::new(2024, 1, 1, 24, 0, 0).is_none());
    assert!(Timestamp::new(2024, 1, 1, 0, 60, 0).is_none());
    assert!(Timestamp::new(2024, 1, 1, 0, 0, 60).is_none());
}

#[test]
fn in_range_fields_are_kept_as_given() {
    let ts = Timestamp::new(2026, 10, 12, 18, 4, 9).unwrap();
    assert_eq!(ts.year, 2026);
    assert_eq!(ts.month, 10);
    assert_eq!(ts.day, 12);
    assert_eq!(ts.hour, 18);
    assert_eq!(ts.minute, 4);
    assert_eq!(ts.second, 9);
}

#[test]
fn clock_yields_a_well_formed_timestamp() {
    // The machine's clock sits in the four-digit era, so the reading must
    // come back, and within the documented calendar ranges. A wrapper that
    // made the fields up out of range would be caught here.
    let ts = now_timestamp().unwrap();
    assert!(ts.year >= 1970);
    assert!((1..=12).contains(&ts.month));
    assert!((1..=31).contains(&ts.day));
    assert!(ts.hour <= 23);
    assert!(ts.minute <= 59);
    assert!(ts.second <= 59);
    let line = log_line(&ts);
    assert_eq!(line.len(), "pomodoro - YYYY-MM-DD HH:MM:SS".len());
    assert!(line.starts_with(b"pomodoro - "));
}
