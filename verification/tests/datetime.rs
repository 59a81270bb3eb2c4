use chrono::{Datelike, Timelike};
use open_meteo_rs::datetime::{
    checked_unix_time_to_naive_datetime, is_representable, unix_time_to_naive_datetime, NaiveDate,
    NaiveDateTime,
};

fn moment(year: i32, month: u32, day: u32, hour: u32, minute: u32, second: u32) -> NaiveDateTime {
    NaiveDateTime { date: NaiveDate { year, month, day }, hour, minute, second }
}

#[test]
fn epoch_seconds_become_wall_clock_time() {
    assert_eq!(unix_time_to_naive_datetime(0, 0), moment(1970, 1, 1, 0, 0, 0));
    assert_eq!(unix_time_to_naive_datetime(1000, 3600), moment(1970, 1, 1, 1, 16, 40));
    assert_eq!(unix_time_to_naive_datetime(500, 0), moment(1970, 1, 1, 0, 8, 20));
    assert_eq!(unix_time_to_naive_datetime(-1, 0), moment(1969, 12, 31, 23, 59, 59));
    assert_eq!(unix_time_to_naive_datetime(951_782_400, 0), moment(2000, 2, 29, 0, 0, 0));
    assert_eq!(unix_time_to_naive_datetime(1_700_000_000, -3600), moment(2023, 11, 14, 21, 13, 20));
    assert_eq!(unix_time_to_naive_datetime(4_102_444_799, 1), moment(2100, 1, 1, 0, 0, 0));
}

#[test]
fn conversion_agrees_with_chrono() {
    for (unix_time, offset) in [(0i64, 0i32), (1_700_000_000, 7200), (-86_401, -1), (253_402_300_799, 0)] {
        let expected = chrono::DateTime::from_timestamp_millis((unix_time + i64::from(offset)) * 1000)
            .unwrap()
            .naive_utc();
        let got = unix_time_to_naive_datetime(unix_time, offset);
        assert_eq!(got.date.year, expected.year());
        assert_eq!(got.date.month, expected.month());
        assert_eq!(got.date.day, expected.day());
        assert_eq!(got.hour, expected.hour());
        assert_eq!(got.minute, expected.minute());
        assert_eq!(got.second, expected.second());
        assert_eq!(checked_unix_time_to_naive_datetime(unix_time, offset), Some(got));
        assert!(is_representable(unix_time, offset));
    }
}

#[test]
fn moments_outside_the_calendar_have_no_time() {
    assert_eq!(checked_unix_time_to_naive_datetime(i64::MAX, 0), None);
    assert_eq!(checked_unix_time_to_naive_datetime(i64::MAX, 1), None);
    assert_eq!(checked_unix_time_to_naive_datetime(i64::MIN, -1), None);
    assert_eq!(checked_unix_time_to_naive_datetime(i64::MAX / 1000, 0), None);
    assert_eq!(checked_unix_time_to_naive_datetime(i64::MIN / 1000, 0), None);
    assert!(!is_representable(i64::MAX, i32::MAX));
    assert!(!is_representable(9_000_000_000_000, 0));
    assert!(is_representable(8_000_000_000_000, 0));
    assert!(is_representable(-8_000_000_000_000, 0));
}

#[test]
fn date_of_a_moment() {
    let moment = unix_time_to_naive_datetime(1_700_000_000, 7200);
    assert_eq!(moment.date(), NaiveDate { year: 2023, month: 11, day: 15 });
}

#[test]
fn defaults_are_the_epoch() {
    assert_eq!(NaiveDate::default(), NaiveDate { year: 1970, month: 1, day: 1 });
    assert_eq!(NaiveDateTime::default(), moment(1970, 1, 1, 0, 0, 0));
    let expected = chrono::NaiveDateTime::default();
    assert_eq!(NaiveDateTime::default().date.year, expected.year());
    assert_eq!(NaiveDateTime::default().hour, expected.hour());
    assert_eq!(Some(NaiveDateTime::default()), checked_unix_time_to_naive_datetime(0, 0));
}
