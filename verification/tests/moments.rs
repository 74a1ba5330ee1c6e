//! Moments and their timestamps.

use backitup::digits::decimal;
use backitup::digits::push_decimal;
use backitup::moment::Moment;
use backitup::moment::MAX_YEAR;
use backitup::moment::MIN_YEAR;

fn at(year: i32, month: u32, day: u32, hour: u32, minute: u32, second: u32) -> Moment {
    Moment::new(year, month, day, hour, minute, second, 0).expect("a moment")
}

#[test]
fn decimal_writes_plain_digits() {
    assert_eq!(decimal(0), "0");
    assert_eq!(decimal(7), "7");
    assert_eq!(decimal(10), "10");
    assert_eq!(decimal(42), "42");
    assert_eq!(decimal(100_000), "100000");
    assert_eq!(decimal(999_999), "999999");
    assert_eq!(decimal(u32::MAX), "4294967295");
}

#[test]
fn decimal_agrees_with_the_standard_library() {
    let mut n: u32 = 1;
    for _ in 0..40 {
        assert_eq!(decimal(n), n.to_string());
        assert_eq!(decimal(n - 1), (n - 1).to_string());
        n = n.wrapping_mul(7).wrapping_add(3);
    }
}

#[test]
fn push_decimal_appends() {
    let mut text = String::from("stamp-");
    push_decimal(&mut text, 5_020);
    assert_eq!(text, "stamp-5020");
    push_decimal(&mut text, 0);
    assert_eq!(text, "stamp-50200");
}

#[test]
fn new_keeps_the_fields() {
    let moment = Moment::new(2023, 6, 27, 21, 1, 13, 987_654).unwrap();
    assert_eq!(moment.year(), 2023);
    assert_eq!(moment.month(), 6);
    assert_eq!(moment.day(), 27);
    assert_eq!(moment.hour(), 21);
    assert_eq!(moment.minute(), 1);
    assert_eq!(moment.second(), 13);
    assert_eq!(moment.micros(), 987_654);
}

#[test]
fn new_refuses_days_that_do_not_exist() {
    assert!(Moment::new(2023, 2, 28, 0, 0, 0, 0).is_some());
    assert!(Moment::new(2023, 2, 29, 0, 0, 0, 0).is_none());
    assert!(Moment::new(2024, 2, 29, 0, 0, 0, 0).is_some());
    assert!(Moment::new(2024, 2, 30, 0, 0, 0, 0).is_none());
    assert!(Moment::new(1900, 2, 29, 0, 0, 0, 0).is_none());
    assert!(Moment::new(2000, 2, 29, 0, 0, 0, 0).is_some());
    assert!(Moment::new(-4, 2, 29, 0, 0, 0, 0).is_some());
    assert!(Moment::new(-1, 2, 29, 0, 0, 0, 0).is_none());
    assert!(Moment::new(0, 2, 29, 0, 0, 0, 0).is_some());
    assert!(Moment::new(-100, 2, 29, 0, 0, 0, 0).is_none());
    assert!(Moment::new(-400, 2, 29, 0, 0, 0, 0).is_some());
    assert!(Moment::new(2023, 4, 30, 0, 0, 0, 0).is_some());
    assert!(Moment::new(2023, 4, 31, 0, 0, 0, 0).is_none());
    assert!(Moment::new(2023, 12, 31, 0, 0, 0, 0).is_some());
    assert!(Moment::new(2023, 12, 32, 0, 0, 0, 0).is_none());
    assert!(Moment::new(2023, 1, 0, 0, 0, 0, 0).is_none());
    assert!(Moment::new(2023, 0, 1, 0, 0, 0, 0).is_none());
    assert!(Moment::new(2023, 13, 1, 0, 0, 0, 0).is_none());
}

#[test]
fn new_refuses_times_that_do_not_exist() {
    assert!(Moment::new(2023, 6, 27, 23, 59, 59, 999_999).is_some());
    assert!(Moment::new(2023, 6, 27, 24, 0, 0, 0).is_none());
    assert!(Moment::new(2023, 6, 27, 0, 60, 0, 0).is_none());
    assert!(Moment::new(2023, 6, 27, 0, 0, 60, 0).is_none());
    assert!(Moment::new(2023, 6, 27, 0, 0, 0, 1_000_000).is_none());
}

#[test]
fn new_keeps_to_the_years_of_the_calendar() {
    assert_eq!(MIN_YEAR, -262_143);
    assert_eq!(MAX_YEAR, 262_142);
    assert!(Moment::new(MIN_YEAR, 1, 1, 0, 0, 0, 0).is_some());
    assert!(Moment::new(MIN_YEAR - 1, 12, 31, 0, 0, 0, 0).is_none());
    assert!(Moment::new(MAX_YEAR, 12, 31, 23, 59, 59, 999_999).is_some());
    assert!(Moment::new(MAX_YEAR + 1, 1, 1, 0, 0, 0, 0).is_none());
    assert!(Moment::new(i32::MIN, 1, 1, 0, 0, 0, 0).is_none());
    assert!(Moment::new(i32::MAX, 1, 1, 0, 0, 0, 0).is_none());
}

#[test]
fn new_agrees_with_chrono_on_every_day_of_some_years() {
    for year in [-401, -400, -100, -4, -1, 0, 1, 4, 100, 1900, 2000, 2023, 2024, 9999, 10000] {
        for month in 0..=13 {
            for day in 0..=32 {
                let ours = Moment::new(year, month, day, 12, 0, 0, 0).is_some();
                let theirs = chrono::NaiveDate::from_ymd_opt(year, month, day).is_some();
                assert_eq!(ours, theirs, "{}-{}-{}", year, month, day);
            }
        }
    }
}

#[test]
fn stamp_pads_every_field() {
    assert_eq!(at(2023, 6, 27, 21, 1, 13).stamp(), "2023-06-27-21-01-13");
    assert_eq!(at(2023, 12, 31, 23, 59, 59).stamp(), "2023-12-31-23-59-59");
    assert_eq!(at(2000, 1, 1, 0, 0, 0).stamp(), "2000-01-01-00-00-00");
    assert_eq!(at(1970, 10, 9, 8, 7, 6).stamp(), "1970-10-09-08-07-06");
}

#[test]
fn stamp_leaves_the_microseconds_out() {
    let moment = Moment::new(2023, 6, 27, 21, 1, 13, 999_999).unwrap();
    assert_eq!(moment.stamp(), "2023-06-27-21-01-13");
}

#[test]
fn stamp_pads_early_years_to_four_digits() {
    assert_eq!(at(0, 1, 1, 0, 0, 0).stamp(), "0000-01-01-00-00-00");
    assert_eq!(at(7, 1, 1, 0, 0, 0).stamp(), "0007-01-01-00-00-00");
    assert_eq!(at(42, 1, 1, 0, 0, 0).stamp(), "0042-01-01-00-00-00");
    assert_eq!(at(999, 1, 1, 0, 0, 0).stamp(), "0999-01-01-00-00-00");
    assert_eq!(at(1000, 1, 1, 0, 0, 0).stamp(), "1000-01-01-00-00-00");
    assert_eq!(at(9999, 1, 1, 0, 0, 0).stamp(), "9999-01-01-00-00-00");
}

#[test]
fn stamp_signs_years_beyond_four_digits() {
    assert_eq!(at(10_000, 1, 1, 0, 0, 0).stamp(), "+10000-01-01-00-00-00");
    assert_eq!(at(123_456, 1, 1, 0, 0, 0).stamp(), "+123456-01-01-00-00-00");
    assert_eq!(at(MAX_YEAR, 12, 31, 23, 59, 59).stamp(), "+262142-12-31-23-59-59");
}

#[test]
fn stamp_signs_years_before_zero() {
    assert_eq!(at(-1, 1, 1, 0, 0, 0).stamp(), "-0001-01-01-00-00-00");
    assert_eq!(at(-42, 1, 1, 0, 0, 0).stamp(), "-0042-01-01-00-00-00");
    assert_eq!(at(-9999, 1, 1, 0, 0, 0).stamp(), "-9999-01-01-00-00-00");
    assert_eq!(at(-10_000, 1, 1, 0, 0, 0).stamp(), "-10000-01-01-00-00-00");
    assert_eq!(at(MIN_YEAR, 1, 1, 0, 0, 0).stamp(), "-262143-01-01-00-00-00");
}
