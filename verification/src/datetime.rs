//! Calendar dates and wall-clock times, as plain numbers.

use chrono::{Datelike, TimeZone, Timelike};
use vstd::prelude::*;

verus! {

/// A calendar date without a time zone.
#[derive(Clone, Copy, Debug, PartialEq, Eq, Structural)]
pub struct NaiveDate {
    pub year: i32,
    pub month: u32,
    pub day: u32,
}

/// A calendar date and a time of day without a time zone: wall-clock time
/// at the place a response speaks of.
#[derive(Clone, Copy, Debug, PartialEq, Eq, Structural)]
pub struct NaiveDateTime {
    pub date: NaiveDate,
    pub hour: u32,
    pub minute: u32,
    pub second: u32,
}

impl NaiveDate {
    /// The first day of 1970.
    pub open spec fn epoch() -> NaiveDate {
        NaiveDate { year: 1970, month: 1, day: 1 }
    }
}

impl Default for NaiveDate {
    /// The first day of 1970.
    fn default() -> (d: NaiveDate)
        ensures
            d == NaiveDate::epoch(),
    {
        NaiveDate { year: 1970, month: 1, day: 1 }
    }
}

impl Default for NaiveDateTime {
    /// Midnight at the start of 1970.
    fn default() -> (d: NaiveDateTime)
        ensures
            d == NaiveDateTime::epoch(),
    {
        NaiveDateTime { date: NaiveDate { year: 1970, month: 1, day: 1 }, hour: 0, minute: 0, second: 0 }
    }
}

impl NaiveDateTime {
    /// Midnight at the start of 1970.
    pub open spec fn epoch() -> NaiveDateTime {
        NaiveDateTime { date: NaiveDate::epoch(), hour: 0, minute: 0, second: 0 }
    }

    /// The calendar date of this moment.
    pub fn date(&self) -> (d: NaiveDate)
        ensures
            d == self.date,
    {
        self.date
    }
}

/// The date and time that chrono gives for a count of milliseconds since
/// 1970-01-01 00:00:00, or `None` where chrono has no date for it.
pub uninterp spec fn civil_of_millis(millis: int) -> Option<NaiveDateTime>;

/// Calls chrono's `TimeZone::timestamp_millis_opt` on `Utc` and reads the
/// fields of the result's `naive_local()`. The contract claims only that the
/// outcome depends on `millis` alone.
#[verifier::external_body]
fn naive_from_millis(millis: i64) -> (r: Option<NaiveDateTime>)
    ensures
        r == civil_of_millis(millis as int),
{
    match chrono::Utc.timestamp_millis_opt(millis) {
        chrono::MappedLocalTime::Single(dt) => {
            let n = dt.naive_local();
            let date = NaiveDate { year: n.year(), month: n.month(), day: n.day() };
            Some(NaiveDateTime { date, hour: n.hour(), minute: n.minute(), second: n.second() })
        },
        _ => None,
    }
}

/// The wall-clock time that lies `utc_offset_seconds` after the moment
/// `unix_time` seconds past the epoch; `None` where the count of
/// milliseconds leaves `i64` or chrono's calendar.
pub open spec fn local_datetime(unix_time: int, utc_offset_seconds: int) -> Option<NaiveDateTime> {
    let millis = (unix_time + utc_offset_seconds) * 1000;
    if i64::MIN <= millis <= i64::MAX {
        civil_of_millis(millis)
    } else {
        None
    }
}

/// Tells whether epoch seconds with a UTC offset have a wall-clock time.
pub fn is_representable(unix_time: i64, utc_offset_seconds: i32) -> (r: bool)
    ensures
        r == local_datetime(unix_time as int, utc_offset_seconds as int).is_some(),
{
    let offset: i64 = utc_offset_seconds as i64;
    match unix_time.checked_add(offset) {
        None => {
            assert(!(i64::MIN <= (unix_time + utc_offset_seconds) * 1000 <= i64::MAX))
                by (nonlinear_arith)
                requires
                    !(i64::MIN <= unix_time + utc_offset_seconds <= i64::MAX),
            ;
            false
        },
        Some(local) => match local.checked_mul(1000) {
            None => false,
            Some(millis) => naive_from_millis(millis).is_some(),
        },
    }
}

/// Converts epoch seconds and a UTC offset to wall-clock time: the moment
/// `(unix_time + utc_offset_seconds) * 1000` milliseconds past the epoch,
/// read without a time zone.
pub fn unix_time_to_naive_datetime(unix_time: i64, utc_offset_seconds: i32) -> (r: NaiveDateTime)
    requires
        local_datetime(unix_time as int, utc_offset_seconds as int).is_some(),
    ensures
        Some(r) == local_datetime(unix_time as int, utc_offset_seconds as int),
{
    assert(i64::MIN <= unix_time + utc_offset_seconds <= i64::MAX) by (nonlinear_arith)
        requires
            i64::MIN <= (unix_time + utc_offset_seconds) * 1000 <= i64::MAX,
    ;
    let offset: i64 = utc_offset_seconds as i64;
    let millis: i64 = (unix_time + offset) * 1000;
    match naive_from_millis(millis) {
        Some(datetime) => datetime,
        None => unreached(),
    }
}

/// Converts epoch seconds and a UTC offset to wall-clock time, or gives
/// `None` where the moment has none.
pub fn checked_unix_time_to_naive_datetime(unix_time: i64, utc_offset_seconds: i32) -> (r: Option<
    NaiveDateTime,
>)
    ensures
        r == local_datetime(unix_time as int, utc_offset_seconds as int),
{
    if is_representable(unix_time, utc_offset_seconds) {
        Some(unix_time_to_naive_datetime(unix_time, utc_offset_seconds))
    } else {
        None
    }
}

/// What chrono writes for a date under the pattern `%Y-%m-%d`, or `None`
/// where chrono's calendar has no such day.
pub uninterp spec fn iso_date_text(date: NaiveDate) -> Option<Seq<char>>;

/// Calls chrono's `NaiveDate::from_ymd_opt` and, on the date it gives,
/// `NaiveDate::format` with the pattern `%Y-%m-%d`. The contract claims only
/// that the outcome depends on the three numbers alone.
#[verifier::external_body]
pub(crate) fn format_ymd(date: &NaiveDate) -> (r: Option<String>)
    ensures
        match r {
            Some(text) => iso_date_text(*date) == Some(text@),
            None => iso_date_text(*date).is_none(),
        },
{
    match chrono::NaiveDate::from_ymd_opt(date.year, date.month, date.day) {
        Some(day) => Some(day.format("%Y-%m-%d").to_string()),
        None => None,
    }
}

} // verus!
