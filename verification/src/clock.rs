//! Instants, calendar times, and what the `chrono` crate computes on them.

use chrono::{Datelike, TimeZone, Timelike};
use std::fmt::Write;
use vstd::prelude::*;

verus! {

/// An instant on the UTC time line: whole seconds since 1970-01-01 00:00:00
/// UTC and the nanoseconds past that second.
#[derive(Clone, Copy, Debug, PartialEq, Eq, Structural)]
pub struct Timestamp {
    pub secs: i64,
    pub nanos: u32,
}

/// A calendar day with no time zone attached.
#[derive(Clone, Copy, Debug, PartialEq, Eq, Structural)]
pub struct CivilDate {
    pub year: i32,
    pub month: u32,
    pub day: u32,
}

/// A calendar day and a time of day with no time zone attached.
#[derive(Clone, Copy, Debug, PartialEq, Eq, Structural)]
pub struct CivilDateTime {
    pub year: i32,
    pub month: u32,
    pub day: u32,
    pub hour: u32,
    pub minute: u32,
    pub second: u32,
    pub nano: u32,
}

/// The first moment of `date`.
pub open spec fn midnight(date: CivilDate) -> CivilDateTime {
    CivilDateTime {
        year: date.year,
        month: date.month,
        day: date.day,
        hour: 0,
        minute: 0,
        second: 0,
        nano: 0,
    }
}

impl CivilDate {
    /// The first moment of this day.
    pub fn at_midnight(self) -> (start: CivilDateTime)
        ensures
            start == midnight(self),
    {
        CivilDateTime {
            year: self.year,
            month: self.month,
            day: self.day,
            hour: 0,
            minute: 0,
            second: 0,
            nano: 0,
        }
    }
}

/// `numerator / denominator`, rounded toward zero.
pub open spec fn quotient_toward_zero(numerator: int, denominator: int) -> int
    recommends
        denominator > 0,
{
    if numerator >= 0 {
        numerator / denominator
    } else {
        -((-numerator) / denominator)
    }
}

/// The nanoseconds from `from` to `to`; negative when `to` is the earlier one.
pub open spec fn nanoseconds_between(to: Timestamp, from: Timestamp) -> int {
    (to.secs - from.secs) * 1_000_000_000 + (to.nanos - from.nanos)
}

/// The whole minutes from `now` until `due`, rounded toward zero: negative
/// once `due` is at least a minute in the past.
pub open spec fn whole_minutes_between(due: Timestamp, now: Timestamp) -> int {
    quotient_toward_zero(nanoseconds_between(due, now), 60_000_000_000)
}

/// The whole minutes from `now` until `due`.
pub fn minutes_between(due: Timestamp, now: Timestamp) -> (minutes: i64)
    ensures
        minutes == whole_minutes_between(due, now),
{
    let seconds: i128 = due.secs as i128 - now.secs as i128;
    let nanos: i128 = seconds * 1_000_000_000 + (due.nanos as i128 - now.nanos as i128);
    if nanos >= 0 {
        (nanos / 60_000_000_000) as i64
    } else {
        let behind: i128 = -nanos;
        let minutes: i128 = behind / 60_000_000_000;
        (-minutes) as i64
    }
}

/// What `chrono::NaiveDateTime::parse_from_str` makes of `text` under the
/// format `pattern`: the calendar time it reads, or `None` where it fails.
pub uninterp spec fn civil_date_time_from_text(text: Seq<char>, pattern: Seq<char>) -> Option<
    CivilDateTime,
>;

/// What `chrono::NaiveDate::parse_from_str` makes of `text` under the format
/// `pattern`: the calendar day it reads, or `None` where it fails.
pub uninterp spec fn civil_date_from_text(text: Seq<char>, pattern: Seq<char>) -> Option<CivilDate>;

/// Calls `chrono::NaiveDateTime::parse_from_str`. Trusted: the result is a
/// function of the two texts alone, named [`civil_date_time_from_text`]; the
/// fields are those that chrono's accessors give for the parsed value.
#[verifier::external_body]
pub(crate) fn parse_civil_date_time(text: &str, pattern: &str) -> (parsed: Option<CivilDateTime>)
    ensures
        parsed == civil_date_time_from_text(text@, pattern@),
{
    match chrono::NaiveDateTime::parse_from_str(text, pattern) {
        Ok(t) => Some(
            CivilDateTime {
                year: t.year(),
                month: t.month(),
                day: t.day(),
                hour: t.hour(),
                minute: t.minute(),
                second: t.second(),
                nano: t.nanosecond(),
            },
        ),
        Err(_) => None,
    }
}

/// Calls `chrono::NaiveDate::parse_from_str`. Trusted: the result is a
/// function of the two texts alone, named [`civil_date_from_text`].
#[verifier::external_body]
pub(crate) fn parse_civil_date(text: &str, pattern: &str) -> (parsed: Option<CivilDate>)
    ensures
        parsed == civil_date_from_text(text@, pattern@),
{
    match chrono::NaiveDate::parse_from_str(text, pattern) {
        Ok(d) => Some(CivilDate { year: d.year(), month: d.month(), day: d.day() }),
        Err(_) => None,
    }
}

/// Calls `chrono::Local.from_local_datetime(..).single()`: the instant at
/// which clocks in this machine's time zone show `civil`. `None` where the
/// fields name no calendar time, or where the zone shows that time never (a
/// gap) or twice (a fold). Trusted, and nothing is claimed of the result: it
/// depends on the zone the machine is set to. The call panics where the
/// zone's data on this machine give chrono no answer.
#[verifier::external_body]
pub(crate) fn local_instant(civil: &CivilDateTime) -> (instant: Option<Timestamp>) {
    let day = chrono::NaiveDate::from_ymd_opt(civil.year, civil.month, civil.day)?;
    let naive = day.and_hms_nano_opt(civil.hour, civil.minute, civil.second, civil.nano)?;
    let t = chrono::Local.from_local_datetime(&naive).single()?;
    Some(Timestamp { secs: t.timestamp(), nanos: t.timestamp_subsec_nanos() })
}

/// Calls `chrono::Utc::now()`, which reads the system clock and panics where
/// that clock stands before 1970. Trusted, and nothing is claimed of the
/// result.
#[verifier::external_body]
pub(crate) fn current_time() -> (now: Timestamp) {
    let t = chrono::Utc::now();
    Timestamp { secs: t.timestamp(), nanos: t.timestamp_subsec_nanos() }
}

/// Calls `chrono::DateTime::format` on `instant` as this machine's time zone
/// shows it, and writes the outcome into a text. `None` where chrono cannot
/// hold the instant or rejects the pattern. Trusted, and nothing is claimed
/// of the text: it depends on the zone the machine is set to. The call
/// panics where the zone's data on this machine give chrono no answer.
#[verifier::external_body]
pub(crate) fn local_time_text(instant: &Timestamp, pattern: &str) -> (text: Option<String>) {
    let t = chrono::DateTime::from_timestamp(instant.secs, instant.nanos)?;
    let mut text = String::new();
    match write!(text, "{}", t.with_timezone(&chrono::Local).format(pattern)) {
        Ok(()) => Some(text),
        Err(_) => None,
    }
}

/// What `chrono::DateTime::to_rfc3339` writes for `instant`, taken as a time
/// in UTC; `None` where chrono cannot hold the instant.
pub uninterp spec fn rfc3339_text(instant: Timestamp) -> Option<Seq<char>>;

/// The instant that `chrono::DateTime::parse_from_rfc3339` reads from
/// `text`; `None` where it fails.
pub uninterp spec fn rfc3339_instant(text: Seq<char>) -> Option<Timestamp>;

/// Calls `chrono::DateTime::from_timestamp` and, on what it gives,
/// `to_rfc3339`. Trusted: the result is a function of the instant alone,
/// named [`rfc3339_text`].
#[verifier::external_body]
pub(crate) fn write_rfc3339(instant: &Timestamp) -> (text: Option<String>)
    ensures
        text.deep_view() == rfc3339_text(*instant),
{
    match chrono::DateTime::from_timestamp(instant.secs, instant.nanos) {
        Some(t) => Some(t.to_rfc3339()),
        None => None,
    }
}

/// Calls `chrono::DateTime::parse_from_rfc3339`. Trusted: the result is a
/// function of the text alone, named [`rfc3339_instant`]; the fields are
/// those that chrono's accessors give for the parsed value.
#[verifier::external_body]
pub(crate) fn read_rfc3339(text: &str) -> (instant: Option<Timestamp>)
    ensures
        instant == rfc3339_instant(text@),
{
    match chrono::DateTime::parse_from_rfc3339(text) {
        Ok(t) => Some(Timestamp { secs: t.timestamp(), nanos: t.timestamp_subsec_nanos() }),
        Err(_) => None,
    }
}

} // verus!
