//! Points in time and their string form on the wire.
//!
//! The gateway writes some instants as full RFC 3339 timestamps and others as
//! bare `YYYY-MM-DD` dates. Reading accepts both, a bare date meaning midnight
//! UTC of that day; writing always gives the full RFC 3339 form.
use vstd::prelude::*;

use chrono::{Datelike, Timelike};

use crate::decimal::DecodeError;

verus! {

/// An instant in UTC, as calendar fields.
///
/// `nanosecond` may reach `1_999_999_999` on a leap second, which is written
/// with `second == 59`.
#[derive(Clone, Copy, Debug, PartialEq, Eq, Structural)]
pub struct Timestamp {
    pub year: i32,
    pub month: u32,
    pub day: u32,
    pub hour: u32,
    pub minute: u32,
    pub second: u32,
    pub nanosecond: u32,
}

/// A day of the proleptic Gregorian calendar.
#[derive(Clone, Copy, Debug, PartialEq, Eq, Structural)]
pub struct CalendarDate {
    pub year: i32,
    pub month: u32,
    pub day: u32,
}

/// How reading a string as an RFC 3339 timestamp failed.
#[derive(Clone, Copy, Debug, PartialEq, Eq, Structural)]
pub enum Rfc3339Failure {
    /// The string ended before a full timestamp was read.
    TooShort,
    /// Any other failure.
    Invalid,
}

/// The earliest and latest years that a timestamp can have.
pub const MIN_YEAR: i32 = -262143;
pub const MAX_YEAR: i32 = 262142;

pub open spec fn is_leap_year(y: int) -> bool {
    y % 4 == 0 && (y % 100 != 0 || y % 400 == 0)
}

pub open spec fn days_in_month(y: int, m: int) -> int {
    if m == 2 {
        if is_leap_year(y) { 29 } else { 28 }
    } else if m == 4 || m == 6 || m == 9 || m == 11 {
        30
    } else {
        31
    }
}

impl CalendarDate {
    /// The fields name a day that exists.
    pub open spec fn wf(self) -> bool {
        &&& MIN_YEAR <= self.year <= MAX_YEAR
        &&& 1 <= self.month <= 12
        &&& 1 <= self.day <= days_in_month(self.year as int, self.month as int)
    }
}

impl Timestamp {
    /// The fields name an instant that exists.
    pub open spec fn wf(self) -> bool {
        &&& (CalendarDate { year: self.year, month: self.month, day: self.day }).wf()
        &&& self.hour < 24
        &&& self.minute < 60
        &&& self.second < 60
        &&& self.nanosecond < 2_000_000_000
        &&& self.nanosecond >= 1_000_000_000 ==> self.second == 59
    }
}

/// What chrono's RFC 3339 reader makes of a string, converted to UTC.
pub uninterp spec fn rfc3339_reading(s: Seq<char>) -> Result<Timestamp, Rfc3339Failure>;

/// What chrono's `%Y-%m-%d` reader makes of a string.
pub uninterp spec fn calendar_date_reading(s: Seq<char>) -> Option<CalendarDate>;

/// The RFC 3339 text that chrono writes for an instant in UTC, such as
/// `2025-05-11T19:21:09Z`.
pub uninterp spec fn rfc3339_text(t: Timestamp) -> Seq<char>;

/// Relies on chrono's `DateTime::parse_from_rfc3339`, with the result moved
/// to UTC, and on its error kind `TooShort` for input that ends early.
#[verifier::external_body]
fn parse_rfc3339(s: &str) -> (r: Result<Timestamp, Rfc3339Failure>)
    ensures
        r == rfc3339_reading(s@),
        r matches Ok(t) ==> t.wf(),
{
    match chrono::DateTime::parse_from_rfc3339(s) {
        Ok(d) => {
            let u = d.to_utc();
            Ok(Timestamp {
                year: u.year(), month: u.month(), day: u.day(),
                hour: u.hour(), minute: u.minute(), second: u.second(), nanosecond: u.nanosecond(),
            })
        },
        Err(e) if e.kind() == chrono::format::ParseErrorKind::TooShort => Err(Rfc3339Failure::TooShort),
        Err(_) => Err(Rfc3339Failure::Invalid),
    }
}

/// Relies on chrono's `NaiveDate::parse_from_str` with the format `%Y-%m-%d`.
#[verifier::external_body]
fn parse_calendar_date(s: &str) -> (r: Option<CalendarDate>)
    ensures
        r == calendar_date_reading(s@),
        r matches Some(d) ==> d.wf(),
{
    match chrono::NaiveDate::parse_from_str(s, "%Y-%m-%d") {
        Ok(d) => Some(CalendarDate { year: d.year(), month: d.month(), day: d.day() }),
        Err(_) => None,
    }
}

/// Relies on chrono's `NaiveDate::from_ymd_opt` and `NaiveDate::and_hms_nano_opt`,
/// which accept every valid instant, and on `DateTime::<Utc>::to_rfc3339_opts`
/// with `Z` for the zero offset. For a year of four digits what it writes is
/// read back by `DateTime::parse_from_rfc3339` as the same instant: the
/// fraction has 3, 6 or 9 digits, and a leap second is written as second 60.
/// Any other year is written with a sign, which that reader refuses.
#[verifier::external_body]
fn format_rfc3339(t: &Timestamp) -> (r: String)
    requires
        t.wf(),
    ensures
        r@ == rfc3339_text(*t),
        if 0 <= t.year <= 9999 {
            rfc3339_reading(r@) == Ok::<Timestamp, Rfc3339Failure>(*t)
        } else {
            rfc3339_reading(r@) is Err
        },
{
    chrono::NaiveDate::from_ymd_opt(t.year, t.month, t.day)
        .and_then(|d| d.and_hms_nano_opt(t.hour, t.minute, t.second, t.nanosecond))
        .map(|n| n.and_utc().to_rfc3339_opts(chrono::SecondsFormat::AutoSi, true))
        .unwrap_or_default()
}

pub open spec fn midnight_of(d: CalendarDate) -> Timestamp {
    Timestamp {
        year: d.year,
        month: d.month,
        day: d.day,
        hour: 0,
        minute: 0,
        second: 0,
        nanosecond: 0,
    }
}

/// The instant that a strict RFC 3339 reading and, when that ended early,
/// a bare-date reading give together.
pub open spec fn settled_reading(
    strict: Result<Timestamp, Rfc3339Failure>,
    date: Option<CalendarDate>,
) -> Result<Timestamp, DecodeError> {
    match strict {
        Ok(t) => Ok(t),
        Err(Rfc3339Failure::TooShort) => match date {
            Some(d) => Ok(midnight_of(d)),
            None => Err(DecodeError::MalformedTimestamp),
        },
        Err(Rfc3339Failure::Invalid) => Err(DecodeError::MalformedTimestamp),
    }
}

/// What [`decode_timestamp`] returns for a string.
pub open spec fn timestamp_reading(s: Seq<char>) -> Result<Timestamp, DecodeError> {
    settled_reading(rfc3339_reading(s), calendar_date_reading(s))
}

/// Midnight UTC at the start of `date`.
pub fn midnight_utc(date: CalendarDate) -> (r: Timestamp)
    ensures
        r == midnight_of(date),
        date.wf() ==> r.wf(),
{
    Timestamp {
        year: date.year,
        month: date.month,
        day: date.day,
        hour: 0,
        minute: 0,
        second: 0,
        nanosecond: 0,
    }
}

/// Combines the two readings of a timestamp string.
///
/// A strict RFC 3339 reading that succeeded is the answer. One that failed
/// only because the string ended early falls back to the bare-date reading,
/// at midnight UTC. Every other failure is `MalformedTimestamp`; so is a
/// bare-date reading that failed.
pub fn settle_reading(strict: Result<Timestamp, Rfc3339Failure>, date: Option<CalendarDate>) -> (r:
    Result<Timestamp, DecodeError>)
    ensures
        r == settled_reading(strict, date),
{
    match strict {
        Ok(t) => Ok(t),
        Err(Rfc3339Failure::TooShort) => match date {
            Some(d) => Ok(midnight_utc(d)),
            None => Err(DecodeError::MalformedTimestamp),
        },
        Err(Rfc3339Failure::Invalid) => Err(DecodeError::MalformedTimestamp),
    }
}

/// Reads a timestamp written either as RFC 3339 (`2025-05-11T19:21:09Z`) or
/// as a bare date (`2022-12-29`, meaning midnight UTC of that day).
///
/// The bare-date form is tried only when the RFC 3339 reader stopped because
/// the string was too short for it.
pub fn decode_timestamp(input: &str) -> (r: Result<Timestamp, DecodeError>)
    ensures
        r == timestamp_reading(input@),
        r matches Ok(t) ==> t.wf(),
{
    let strict = parse_rfc3339(input);
    match strict {
        Err(Rfc3339Failure::TooShort) => {
            let date = parse_calendar_date(input);
            settle_reading(strict, date)
        },
        _ => {
            let r = settle_reading(strict, None);
            assert(r == settled_reading(strict, calendar_date_reading(input@)));
            r
        },
    }
}

/// Writes a timestamp in full RFC 3339 form. For a year of four digits,
/// reading the text back gives the same instant.
pub fn encode_timestamp(value: &Timestamp) -> (r: String)
    requires
        value.wf(),
    ensures
        r@ == rfc3339_text(*value),
        0 <= value.year <= 9999 ==> timestamp_reading(r@) == Ok::<Timestamp, DecodeError>(*value),
{
    format_rfc3339(value)
}

/// Every string that the RFC 3339 reader accepts is read as the instant it
/// gives, with no fallback.
pub proof fn lemma_rfc3339_accepted(s: Seq<char>)
    requires
        rfc3339_reading(s) is Ok,
    ensures
        timestamp_reading(s) == Ok::<Timestamp, DecodeError>(rfc3339_reading(s)->Ok_0),
{
}

} // verus!
