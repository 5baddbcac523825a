//! Dates as the login service reads and writes them.
//!
//! A point in time is held as its UTC timestamp in whole seconds. Parsing and
//! formatting are chrono's; what the service does around them is verified here.
use crate::calendar::{
    is_earlier_date, is_representable_date, is_valid_date, law_earlier_date_earlier_midnight,
    law_sign_of_midnight, midnight_timestamp, midnight_utc_timestamp,
};
use chrono::Datelike;
use std::fmt::Write;
use vstd::prelude::*;

verus! {

/// What chrono's `NaiveDate::parse_from_str(s, fmt)` gives: the date as
/// `(year, month, day)`, or the text of its parse error.
pub uninterp spec fn chrono_parse_date(s: Seq<char>, fmt: Seq<char>) -> Result<(i32, u32, u32), Seq<char>>;

/// What chrono writes for the `DateTime<Utc>` at `secs` seconds after the epoch
/// under the strftime pattern `fmt` (`None` where there is no such date or the
/// pattern cannot be written).
pub uninterp spec fn chrono_format_timestamp(secs: i64, fmt: Seq<char>) -> Option<Seq<char>>;

pub open spec fn parse_result_view(r: Result<(i32, u32, u32), String>) -> Result<(i32, u32, u32), Seq<char>> {
    match r {
        Ok(t) => Ok(t),
        Err(e) => Err(e@),
    }
}

pub open spec fn string_option_view(o: Option<String>) -> Option<Seq<char>> {
    match o {
        Some(s) => Some(s@),
        None => None,
    }
}

/// Calls chrono's `NaiveDate::parse_from_str`. Trusted: the result is
/// chrono's, given as `(year, month, day)` or as the text of its error; a
/// parsed date is a valid date of chrono's range (January 1, 262144 BCE to
/// December 31, 262142 CE), as chrono's `NaiveDate` documents.
#[verifier::external_body]
fn parse_calendar_date(s: &str, fmt: &str) -> (r: Result<(i32, u32, u32), String>)
    ensures
        parse_result_view(r) == chrono_parse_date(s@, fmt@),
        r matches Ok((y, m, d)) ==> is_representable_date(y as int, m as int, d as int),
{
    match chrono::NaiveDate::parse_from_str(s, fmt) {
        Ok(date) => Ok((date.year(), date.month(), date.day())),
        Err(e) => Err(format!("{}", e)),
    }
}

/// Writes the `DateTime<Utc>` made by chrono's `DateTime::from_timestamp(secs, 0)`
/// with chrono's `format(fmt)`. Trusted: the text is chrono's; `None` where
/// chrono has no such date or its formatter reports an error.
#[verifier::external_body]
fn format_timestamp(secs: i64, fmt: &str) -> (r: Option<String>)
    ensures
        string_option_view(r) == chrono_format_timestamp(secs, fmt@),
{
    match chrono::DateTime::from_timestamp(secs, 0) {
        Some(dt) => {
            let mut out = String::new();
            match write!(out, "{}", dt.format(fmt)) {
                Ok(()) => Some(out),
                Err(_) => None,
            }
        },
        None => None,
    }
}

/// What reading an optional date-only text gives: nothing for nothing, the
/// midnight UTC timestamp of a parsed date, or the parser's error text.
pub open spec fn date_only_result(date_str: Option<Seq<char>>) -> Result<Option<int>, Seq<char>> {
    match date_str {
        None => Ok(None),
        Some(s) => match chrono_parse_date(s, "%Y-%m-%d"@) {
            Ok((y, m, d)) => Ok(Some(midnight_timestamp(y as int, m as int, d as int))),
            Err(e) => Err(e),
        },
    }
}

pub open spec fn timestamp_result_view(r: Result<Option<i64>, String>) -> Result<Option<int>, Seq<char>> {
    match r {
        Ok(Some(t)) => Ok(Some(t as int)),
        Ok(None) => Ok(None),
        Err(e) => Err(e@),
    }
}

/// The step after parsing: a parsed date becomes the timestamp of its
/// midnight in UTC, an error stays the error.
pub fn date_only_from_parsed(parsed: Result<(i32, u32, u32), String>) -> (r: Result<i64, String>)
    requires
        parsed matches Ok((y, m, d)) ==> is_representable_date(y as int, m as int, d as int),
    ensures
        match parsed {
            Ok((y, m, d)) => r matches Ok(t) && t == midnight_timestamp(y as int, m as int, d as int),
            Err(e) => r matches Err(e2) && e2@ == e@,
        },
{
    match parsed {
        Ok((y, m, d)) => Ok(midnight_utc_timestamp(y, m, d)),
        Err(e) => Err(e),
    }
}

/// Reads an optional date given as "YYYY-MM-DD" into the UTC timestamp of that
/// date's midnight; the error carries the parser's message.
pub fn deserialize_date_only(date_str: Option<String>) -> (r: Result<Option<i64>, String>)
    ensures
        timestamp_result_view(r) == date_only_result(string_option_view(date_str)),
{
    match date_str {
        None => Ok(None),
        Some(s) => {
            let parsed = parse_calendar_date(s.as_str(), "%Y-%m-%d");
            match date_only_from_parsed(parsed) {
                Ok(t) => Ok(Some(t)),
                Err(e) => Err(e),
            }
        },
    }
}

/// Writes a point in time as "YYYY-MM-DD HH:MM:SS" in UTC; `None` where the
/// timestamp is outside the calendar.
pub fn serialize_datetime(dt: i64) -> (r: Option<String>)
    ensures
        string_option_view(r) == chrono_format_timestamp(dt, "%Y-%m-%d %H:%M:%S"@),
{
    format_timestamp(dt, "%Y-%m-%d %H:%M:%S")
}

/// Law: a text that the parser reads as the date `(y, m, d)` is read as the
/// timestamp of that date's midnight in UTC; for a date before 1970-01-01
/// that timestamp is negative, from then on it is not.
pub proof fn law_date_only_reads_midnight(s: Seq<char>, y: i32, m: u32, d: u32)
    requires
        chrono_parse_date(s, "%Y-%m-%d"@) == Ok::<(i32, u32, u32), Seq<char>>((y, m, d)),
        is_valid_date(y as int, m as int, d as int),
    ensures
        date_only_result(Some(s)) == Ok::<Option<int>, Seq<char>>(
            Some(midnight_timestamp(y as int, m as int, d as int)),
        ),
        match date_only_result(Some(s)) {
            Ok(Some(t)) => (y < 1970 ==> t < 0) && (y >= 1970 ==> t >= 0),
            _ => false,
        },
{
    law_sign_of_midnight(y as int, m as int, d as int);
}

/// Law: of two texts read as dates, the one with the earlier date is read as
/// the smaller timestamp.
pub proof fn law_earlier_text_smaller_timestamp(
    s1: Seq<char>,
    s2: Seq<char>,
    y1: i32,
    m1: u32,
    d1: u32,
    y2: i32,
    m2: u32,
    d2: u32,
)
    requires
        chrono_parse_date(s1, "%Y-%m-%d"@) == Ok::<(i32, u32, u32), Seq<char>>((y1, m1, d1)),
        chrono_parse_date(s2, "%Y-%m-%d"@) == Ok::<(i32, u32, u32), Seq<char>>((y2, m2, d2)),
        is_valid_date(y1 as int, m1 as int, d1 as int),
        is_valid_date(y2 as int, m2 as int, d2 as int),
        is_earlier_date(y1 as int, m1 as int, d1 as int, y2 as int, m2 as int, d2 as int),
    ensures
        match (date_only_result(Some(s1)), date_only_result(Some(s2))) {
            (Ok(Some(t1)), Ok(Some(t2))) => t1 < t2,
            _ => false,
        },
{
    law_earlier_date_earlier_midnight(y1 as int, m1 as int, d1 as int, y2 as int, m2 as int, d2 as int);
}

/// Law: reading no text gives no timestamp and no error.
pub proof fn law_date_only_of_nothing()
    ensures
        date_only_result(None) == Ok::<Option<int>, Seq<char>>(None),
{
}

} // verus!
