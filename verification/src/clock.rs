//! Calendar dates and times of day, and what the `chrono` crate says of them.
use crate::text::padded;
use chrono::{DateTime, NaiveDate, NaiveDateTime, NaiveTime, TimeZone, Utc};
use vstd::prelude::*;

verus! {

/// A date of the Gregorian calendar.
#[derive(Debug, Clone, Copy, PartialEq, Eq, Structural)]
pub struct CalendarDate {
    pub year: i32,
    pub month: u32,
    pub day: u32,
}

/// A time of day. A leap second has 1e9 nanoseconds or more.
#[derive(Debug, Clone, Copy, PartialEq, Eq, Structural)]
pub struct ClockTime {
    pub hour: u32,
    pub minute: u32,
    pub second: u32,
    pub nanosecond: u32,
}

/// No moment with a year of four digits, in whatever time zone, is this many milliseconds
/// after the Unix epoch or later.
pub const FOUR_DIGIT_YEARS_MS: i64 = 253_402_400_000_000;

// ---------------------------------------------------------------------------
// The calendar
// ---------------------------------------------------------------------------

pub open spec fn leap_year(year: int) -> bool {
    year % 4 == 0 && (year % 100 != 0 || year % 400 == 0)
}

pub open spec fn days_in_month(year: int, month: int) -> int {
    if month == 2 {
        if leap_year(year) {
            29
        } else {
            28
        }
    } else if month == 4 || month == 6 || month == 9 || month == 11 {
        30
    } else {
        31
    }
}

/// The date exists, in a year that `chrono` can hold.
pub open spec fn valid_date(date: CalendarDate) -> bool {
    &&& -262_143 <= date.year <= 262_142
    &&& 1 <= date.month <= 12
    &&& 1 <= date.day <= days_in_month(date.year as int, date.month as int)
}

/// The time of day exists; a leap second follows on the last second of a minute.
pub open spec fn valid_time(time: ClockTime) -> bool {
    &&& time.hour < 24
    &&& time.minute < 60
    &&& time.second < 60
    &&& time.nanosecond < 1_000_000_000 || (time.second == 59 && time.nanosecond < 2_000_000_000)
}

/// The leap years before a year, counted from the year 1.
pub open spec fn leap_years_before(year: int) -> int {
    (year - 1) / 4 - (year - 1) / 100 + (year - 1) / 400
}

/// Days from 1970-01-01 to the first day of a year.
pub open spec fn days_before_year(year: int) -> int {
    365 * (year - 1970) + leap_years_before(year) - leap_years_before(1970)
}

/// Days from the first day of a year to that of a month.
pub open spec fn days_before_month(year: int, month: int) -> int
    decreases month,
{
    if month <= 1 {
        0
    } else {
        days_before_month(year, month - 1) + days_in_month(year, month - 1)
    }
}

/// Days from 1970-01-01 to a date.
pub open spec fn epoch_days(date: CalendarDate) -> int {
    days_before_year(date.year as int) + days_before_month(date.year as int, date.month as int)
        + date.day - 1
}

/// Whole seconds since midnight.
pub open spec fn day_seconds(time: ClockTime) -> int {
    time.hour * 3600 + time.minute * 60 + time.second
}

/// Seconds from the Unix epoch to a UTC date and time. A leap second counts as the second
/// before it.
pub open spec fn epoch_seconds(date: CalendarDate, time: ClockTime) -> int {
    epoch_days(date) * 86_400 + day_seconds(time)
}

/// Milliseconds from the Unix epoch to a UTC date and time that exist.
pub open spec fn millis_view(date: CalendarDate, time: ClockTime) -> Option<i64> {
    if valid_date(date) && valid_time(time) {
        Some((epoch_seconds(date, time) * 1000 + time.nanosecond / 1_000_000) as i64)
    } else {
        None
    }
}

/// The date and time of a Unix time in whole seconds.
pub open spec fn is_at(date: CalendarDate, time: ClockTime, seconds: i64) -> bool {
    &&& valid_date(date)
    &&& valid_time(time)
    &&& time.nanosecond == 0
    &&& epoch_seconds(date, time) == seconds
}

// ---------------------------------------------------------------------------
// Text
// ---------------------------------------------------------------------------

/// A year in at least four digits, with a sign where there are more or it lies before the
/// year 0.
pub open spec fn year_text(year: int) -> Seq<char> {
    if 0 <= year <= 9999 {
        padded(year as nat, 4)
    } else if year > 0 {
        "+"@ + padded(year as nat, 4)
    } else {
        "-"@ + padded((-year) as nat, 4)
    }
}

/// A date and time in ISO 8601, with the year as given.
pub open spec fn iso_8601(
    year: Seq<char>,
    month: nat,
    day: nat,
    hour: nat,
    minute: nat,
    second: nat,
    millis: nat,
) -> Seq<char> {
    year + "-"@ + padded(month, 2) + "-"@ + padded(day, 2) + "T"@ + padded(hour, 2) + ":"@
        + padded(minute, 2) + ":"@ + padded(second, 2) + "."@ + padded(millis, 3) + "Z"@
}

/// A UTC date and time that exist, in ISO 8601 with milliseconds. A leap second is the
/// second 60.
pub open spec fn text_view(date: CalendarDate, time: ClockTime) -> Option<Seq<char>> {
    if valid_date(date) && valid_time(time) {
        Some(
            iso_8601(
                year_text(date.year as int),
                date.month as nat,
                date.day as nat,
                time.hour as nat,
                time.minute as nat,
                (time.second + time.nanosecond / 1_000_000_000) as nat,
                (time.nanosecond / 1_000_000 % 1000) as nat,
            ),
        )
    } else {
        None
    }
}

/// A Unix time in seconds in ISO 8601, where its year can be held.
pub open spec fn seconds_view(seconds: i64) -> Option<Seq<char>> {
    if exists|date: CalendarDate, time: ClockTime| is_at(date, time, seconds) {
        let (date, time) = choose|date: CalendarDate, time: ClockTime| is_at(date, time, seconds);
        text_view(date, time)
    } else {
        None
    }
}

/// ISO 8601 with milliseconds, as a `chrono` format.
pub open spec fn iso_millis_format() -> Seq<char> {
    "%Y-%m-%dT%H:%M:%S%.3fZ"@
}

/// ISO 8601 with the milliseconds written as zeros, as a `chrono` format.
pub open spec fn iso_seconds_format() -> Seq<char> {
    "%Y-%m-%dT%H:%M:%S.000Z"@
}

/// The view of a text that may be missing.
pub open spec fn opt_text(s: Option<String>) -> Option<Seq<char>> {
    match s {
        Some(t) => Some(t@),
        None => None,
    }
}

// ---------------------------------------------------------------------------
// What `chrono` is asked for
// ---------------------------------------------------------------------------

/// The Unix time in milliseconds of an RFC 3339 text, as `chrono` reads it.
pub uninterp spec fn rfc3339_millis_of(text: Seq<char>) -> Option<i64>;

/// Wraps `chrono::DateTime::timestamp_millis` for a UTC date and time made with
/// `NaiveDate::from_ymd_opt` and `NaiveTime::from_hms_nano_opt`: the milliseconds since the
/// Unix epoch by the Gregorian calendar, missing where there is no such date or time or
/// `chrono` cannot hold the year.
#[verifier::external_body]
pub(crate) fn utc_millis(date: CalendarDate, time: ClockTime) -> (r: Option<i64>)
    ensures
        r == millis_view(date, time),
{
    let d = NaiveDate::from_ymd_opt(date.year, date.month, date.day)?;
    let t = NaiveTime::from_hms_nano_opt(time.hour, time.minute, time.second, time.nanosecond)?;
    Some(Utc.from_utc_datetime(&NaiveDateTime::new(d, t)).timestamp_millis())
}

/// Wraps `chrono::DateTime::format` for a UTC date and time made with
/// `NaiveDate::from_ymd_opt` and `NaiveTime::from_hms_nano_opt`: ISO 8601 with milliseconds,
/// missing where there is no such date or time or `chrono` cannot hold the year. Other
/// formats than the one required may make `chrono` panic when it writes.
#[verifier::external_body]
pub(crate) fn utc_text(date: CalendarDate, time: ClockTime, format: &str) -> (r: Option<String>)
    requires
        format@ == iso_millis_format(),
    ensures
        opt_text(r) == text_view(date, time),
{
    let d = NaiveDate::from_ymd_opt(date.year, date.month, date.day)?;
    let t = NaiveTime::from_hms_nano_opt(time.hour, time.minute, time.second, time.nanosecond)?;
    Some(Utc.from_utc_datetime(&NaiveDateTime::new(d, t)).format(format).to_string())
}

/// Wraps `chrono::DateTime::format` for a Unix time in whole seconds, made with
/// `DateTime::from_timestamp`: the date and time of that moment in ISO 8601, missing where
/// `chrono` cannot hold its year. Other formats than the one required may make `chrono` panic
/// when it writes.
#[verifier::external_body]
pub(crate) fn timestamp_text(seconds: i64, format: &str) -> (r: Option<String>)
    requires
        format@ == iso_seconds_format(),
    ensures
        opt_text(r) == seconds_view(seconds),
{
    Some(DateTime::from_timestamp(seconds, 0)?.format(format).to_string())
}

/// Wraps `chrono::DateTime::parse_from_rfc3339`. What it reads is a function of
/// the text alone; nothing comes back where the text is not RFC 3339. A year has four
/// digits there, so the moment lies before a day or so into the year 10000.
#[verifier::external_body]
pub(crate) fn rfc3339_millis(text: &str) -> (r: Option<i64>)
    ensures
        r == rfc3339_millis_of(text@),
        r matches Some(ms) ==> ms < FOUR_DIGIT_YEARS_MS,
{
    Some(DateTime::parse_from_rfc3339(text).ok()?.timestamp_millis())
}

// ---------------------------------------------------------------------------
// Laws
// ---------------------------------------------------------------------------

/// A year has 365 days, a leap year one more.
pub proof fn years_follow_each_other(year: int)
    ensures
        days_before_year(year + 1) == days_before_year(year) + 365 + (if leap_year(year) {
            1int
        } else {
            0
        }),
{
}

/// The months of a year make up the year.
proof fn months_make_up_a_year(year: int, month: int, later: int)
    requires
        1 <= month < later <= 13,
    ensures
        days_before_month(year, month) + days_in_month(year, month) <= days_before_month(
            year,
            later,
        ),
        days_before_month(year, 13) == days_before_year(year + 1) - days_before_year(year),
{
    years_follow_each_other(year);
    reveal_with_fuel(days_before_month, 14);
}

/// Every day of a year lies before the first day of a later year.
proof fn years_are_apart(year: int, later: int)
    requires
        year < later,
    ensures
        days_before_year(year + 1) <= days_before_year(later),
    decreases later - year,
{
    if year + 1 < later {
        years_follow_each_other(year + 1);
        years_are_apart(year + 1, later);
    }
}

/// A day of a year is counted within the year.
proof fn day_lies_in_its_year(date: CalendarDate)
    requires
        valid_date(date),
    ensures
        days_before_year(date.year as int) <= epoch_days(date) < days_before_year(
            date.year as int + 1,
        ),
{
    let y = date.year as int;
    months_make_up_a_year(y, date.month as int, 13);
    reveal_with_fuel(days_before_month, 14);
}

/// No two dates are the same day.
pub proof fn days_tell_dates_apart(a: CalendarDate, b: CalendarDate)
    requires
        valid_date(a),
        valid_date(b),
        epoch_days(a) == epoch_days(b),
    ensures
        a == b,
{
    day_lies_in_its_year(a);
    day_lies_in_its_year(b);
    if a.year < b.year {
        years_are_apart(a.year as int, b.year as int);
    } else if b.year < a.year {
        years_are_apart(b.year as int, a.year as int);
    } else if a.month < b.month {
        months_make_up_a_year(a.year as int, a.month as int, b.month as int);
    } else if b.month < a.month {
        months_make_up_a_year(a.year as int, b.month as int, a.month as int);
    }
}

/// No two dates and times of day are the same second.
pub proof fn seconds_tell_moments_apart(
    a: CalendarDate,
    at: ClockTime,
    b: CalendarDate,
    bt: ClockTime,
    seconds: i64,
)
    requires
        is_at(a, at, seconds),
        is_at(b, bt, seconds),
    ensures
        a == b,
        at == bt,
{
    let x = epoch_days(a);
    let y = epoch_days(b);
    let p = day_seconds(at);
    let q = day_seconds(bt);
    assert(0 <= p < 86_400 && 0 <= q < 86_400);
    assert(x * 86_400 + p == y * 86_400 + q);
    assert(x == y && p == q);
    days_tell_dates_apart(a, b);
    times_of_day_differ(at, bt);
}

/// No two times of day are the same second after midnight.
proof fn times_of_day_differ(a: ClockTime, b: ClockTime)
    requires
        valid_time(a),
        valid_time(b),
        a.nanosecond == b.nanosecond,
        day_seconds(a) == day_seconds(b),
    ensures
        a == b,
{
}

/// A Unix time has one date and time, which its text shows.
pub proof fn moments_are_unique(date: CalendarDate, time: ClockTime, seconds: i64)
    requires
        is_at(date, time, seconds),
    ensures
        seconds_view(seconds) == text_view(date, time),
        millis_view(date, time) == Some((seconds * 1000) as i64),
{
    let (d, t) = choose|d: CalendarDate, t: ClockTime| is_at(d, t, seconds);
    seconds_tell_moments_apart(d, t, date, time, seconds);
}

/// A year of up to four digits is written with four digits and no sign; a later one has a plus
/// sign before its digits, and one before the year 0 a minus sign.
pub proof fn years_are_written_with_their_sign(year: int)
    ensures
        0 <= year < 10_000 ==> year_text(year) == padded(year as nat, 4),
        year >= 10_000 ==> year_text(year) == "+"@ + padded(year as nat, 4),
        year < 0 ==> year_text(year) == "-"@ + padded((-year) as nat, 4),
{
}

} // verus!
