//! The proleptic Gregorian calendar, as the date types of the project count it.
//!
//! A calendar date `(year, month, day)` is mapped to the number of days between
//! it and 1970-01-01; the UTC timestamp of the date's midnight is that number
//! times 86 400 seconds.
use vstd::prelude::*;

verus! {

/// Smallest year that a calendar date of the project can have (262144 BCE).
pub const MIN_YEAR: i32 = -262143;

/// Largest year that a calendar date of the project can have.
pub const MAX_YEAR: i32 = 262142;

/// Seconds in a day (no leap seconds are counted).
pub const SECONDS_PER_DAY: i64 = 86400;

pub open spec fn is_leap_year(year: int) -> bool {
    (year % 4 == 0 && year % 100 != 0) || year % 400 == 0
}

pub open spec fn days_in_month(year: int, month: int) -> int {
    if month == 2 {
        if is_leap_year(year) { 29 } else { 28 }
    } else if month == 4 || month == 6 || month == 9 || month == 11 {
        30
    } else {
        31
    }
}

/// Days in the months of `year` that come before `month`.
pub open spec fn days_before_month(year: int, month: int) -> int
    decreases month,
{
    if month <= 1 {
        0
    } else {
        days_before_month(year, month - 1) + days_in_month(year, month - 1)
    }
}

/// Leap years among the years `1 ..= year - 1` (counted negatively below year 1).
pub open spec fn leap_years_before(year: int) -> int {
    let p = year - 1;
    p / 4 - p / 100 + p / 400
}

/// Days from 0001-01-01 to the first day of `year`.
pub open spec fn days_before_year(year: int) -> int {
    365 * (year - 1) + leap_years_before(year)
}

/// Days from 1970-01-01 to the given date (negative before it).
pub open spec fn days_from_epoch(year: int, month: int, day: int) -> int {
    days_before_year(year) + days_before_month(year, month) + (day - 1) - days_before_year(1970)
}

pub open spec fn is_valid_date(year: int, month: int, day: int) -> bool {
    &&& 1 <= month <= 12
    &&& 1 <= day <= days_in_month(year, month)
}

/// A valid date whose year lies in the range that the project's date type holds.
pub open spec fn is_representable_date(year: int, month: int, day: int) -> bool {
    &&& is_valid_date(year, month, day)
    &&& MIN_YEAR <= year <= MAX_YEAR
}

/// UTC timestamp (seconds since 1970-01-01 00:00:00) of the midnight that starts a date.
pub open spec fn midnight_timestamp(year: int, month: int, day: int) -> int {
    days_from_epoch(year, month, day) * SECONDS_PER_DAY
}

/// The date that follows `(year, month, day)`.
pub open spec fn next_date(year: int, month: int, day: int) -> (int, int, int) {
    if day < days_in_month(year, month) {
        (year, month, day + 1)
    } else if month < 12 {
        (year, month + 1, 1)
    } else {
        (year + 1, 1, 1)
    }
}

proof fn lemma_days_before_month_table(year: int, month: int)
    requires
        1 <= month <= 12,
    ensures
        days_before_month(year, month) == (if month == 1 { 0int } else if month == 2 { 31 } else if month
            == 3 { 59 } else if month == 4 { 90 } else if month == 5 { 120 } else if month == 6 {
            151
        } else if month == 7 { 181 } else if month == 8 { 212 } else if month == 9 { 243 } else if month
            == 10 { 273 } else if month == 11 { 304 } else { 334 }) + (if month > 2 && is_leap_year(
            year,
        ) {
            1int
        } else {
            0
        }),
{
    reveal_with_fuel(days_before_month, 13);
}

proof fn lemma_shifted_div(p: int, n: int)
    requires
        n == p + 280000,
    ensures
        n / 4 == p / 4 + 70000,
        n / 100 == p / 100 + 2800,
        n / 400 == p / 400 + 700,
        n % 4 == p % 4,
        n % 100 == p % 100,
        n % 400 == p % 400,
{
    assert(n / 4 == p / 4 + 70000 && n % 4 == p % 4) by (nonlinear_arith)
        requires
            n == p + 280000,
    ;
    assert(n / 100 == p / 100 + 2800 && n % 100 == p % 100) by (nonlinear_arith)
        requires
            n == p + 280000,
    ;
    assert(n / 400 == p / 400 + 700 && n % 400 == p % 400) by (nonlinear_arith)
        requires
            n == p + 280000,
    ;
}

/// Whether `year` is a leap year.
pub fn leap_year(year: i32) -> (leap: bool)
    requires
        MIN_YEAR <= year <= MAX_YEAR,
    ensures
        leap == is_leap_year(year as int),
{
    let n: i64 = year as i64 + 280000;
    proof {
        lemma_shifted_div(year as int, n as int);
    }
    (n % 4 == 0 && n % 100 != 0) || n % 400 == 0
}

/// The UTC timestamp of the midnight that starts the given date: what the
/// project obtains from a date by taking its time 00:00:00 and reading it in UTC.
pub fn midnight_utc_timestamp(year: i32, month: u32, day: u32) -> (ts: i64)
    requires
        is_representable_date(year as int, month as int, day as int),
    ensures
        ts == midnight_timestamp(year as int, month as int, day as int),
{
    let p: i64 = year as i64 - 1;
    let n: i64 = p + 280000;
    proof {
        lemma_shifted_div(p as int, n as int);
        lemma_shifted_div(year as int, year as int + 280000);
        lemma_days_before_month_table(year as int, month as int);
    }
    let leap_days: i64 = (n / 4 - 70000) - (n / 100 - 2800) + (n / 400 - 700);
    assert(leap_days == leap_years_before(year as int));
    let before_year: i64 = 365 * p + leap_days;
    let table: i64 = match month {
        1 => 0,
        2 => 31,
        3 => 59,
        4 => 90,
        5 => 120,
        6 => 151,
        7 => 181,
        8 => 212,
        9 => 243,
        10 => 273,
        11 => 304,
        _ => 334,
    };
    let before_month: i64 = if month > 2 && leap_year(year) { table + 1 } else { table };
    assert(days_before_year(1970) == 719162);
    let days: i64 = before_year + before_month + (day as i64 - 1) - 719162;
    assert(days == days_from_epoch(year as int, month as int, day as int));
    assert(-100000000 <= days <= 100000000);
    days * SECONDS_PER_DAY
}

/// Law: 1970-01-01 starts at timestamp 0.
pub proof fn law_epoch_is_zero()
    ensures
        midnight_timestamp(1970, 1, 1) == 0,
{
    reveal_with_fuel(days_before_month, 2);
}

/// Law: the midnight of the day after a valid date comes exactly one day
/// (86 400 seconds) after the midnight of that date, across month and year ends.
pub proof fn law_next_day_is_one_day_later(year: int, month: int, day: int)
    requires
        is_valid_date(year, month, day),
    ensures
        is_valid_date(next_date(year, month, day).0, next_date(year, month, day).1, next_date(year, month, day).2),
        midnight_timestamp(next_date(year, month, day).0, next_date(year, month, day).1, next_date(year, month, day).2)
            == midnight_timestamp(year, month, day) + SECONDS_PER_DAY,
{
    lemma_days_before_month_table(year, month);
    if day < days_in_month(year, month) {
    } else if month < 12 {
        lemma_days_before_month_table(year, month + 1);
    } else {
        lemma_days_before_month_table(year + 1, 1);
        lemma_year_length(year);
    }
    let next = next_date(year, month, day);
    assert(days_from_epoch(next.0, next.1, next.2) == days_from_epoch(year, month, day) + 1);
    assert((days_from_epoch(year, month, day) + 1) * 86400 == days_from_epoch(year, month, day) * 86400
        + 86400) by (nonlinear_arith);
}

/// `(y1, m1, d1)` comes before `(y2, m2, d2)` in the calendar.
pub open spec fn is_earlier_date(y1: int, m1: int, d1: int, y2: int, m2: int, d2: int) -> bool {
    ||| y1 < y2
    ||| y1 == y2 && m1 < m2
    ||| y1 == y2 && m1 == m2 && d1 < d2
}

proof fn lemma_years_apart(y1: int, y2: int)
    requires
        y1 <= y2,
    ensures
        days_before_year(y2) - days_before_year(y1) >= 365 * (y2 - y1),
    decreases y2 - y1,
{
    if y1 < y2 {
        lemma_years_apart(y1, y2 - 1);
        lemma_year_length(y2 - 1);
    }
}

proof fn lemma_months_apart(year: int, m1: int, m2: int)
    requires
        1 <= m1 < m2 <= 13,
    ensures
        days_before_month(year, m2) >= days_before_month(year, m1) + days_in_month(year, m1),
    decreases m2 - m1,
{
    if m1 + 1 < m2 {
        lemma_months_apart(year, m1, m2 - 1);
    }
}

proof fn lemma_day_of_year_bounds(year: int, month: int, day: int)
    requires
        is_valid_date(year, month, day),
    ensures
        0 <= days_before_month(year, month) + day - 1,
        days_before_month(year, month) + day - 1 <= 364 + (if is_leap_year(year) { 1int } else { 0 }),
{
    lemma_days_before_month_table(year, month);
}

/// Law: the calendar keeps order: an earlier valid date has an earlier
/// midnight, so no two dates share a timestamp.
pub proof fn law_earlier_date_earlier_midnight(y1: int, m1: int, d1: int, y2: int, m2: int, d2: int)
    requires
        is_valid_date(y1, m1, d1),
        is_valid_date(y2, m2, d2),
        is_earlier_date(y1, m1, d1, y2, m2, d2),
    ensures
        days_from_epoch(y1, m1, d1) < days_from_epoch(y2, m2, d2),
        midnight_timestamp(y1, m1, d1) < midnight_timestamp(y2, m2, d2),
{
    lemma_day_of_year_bounds(y1, m1, d1);
    lemma_day_of_year_bounds(y2, m2, d2);
    if y1 < y2 {
        lemma_year_length(y1);
        lemma_years_apart(y1 + 1, y2);
    } else if m1 < m2 {
        lemma_months_apart(y1, m1, m2);
    }
    let a = days_from_epoch(y1, m1, d1);
    let b = days_from_epoch(y2, m2, d2);
    assert(a * 86400 < b * 86400) by (nonlinear_arith)
        requires
            a < b,
    ;
}

/// Law: every valid date before 1970-01-01 has a negative midnight timestamp,
/// and every date from then on a non-negative one.
pub proof fn law_sign_of_midnight(year: int, month: int, day: int)
    requires
        is_valid_date(year, month, day),
    ensures
        year < 1970 ==> midnight_timestamp(year, month, day) < 0,
        year >= 1970 ==> midnight_timestamp(year, month, day) >= 0,
{
    law_epoch_is_zero();
    if year < 1970 {
        law_earlier_date_earlier_midnight(year, month, day, 1970, 1, 1);
    } else if is_earlier_date(1970, 1, 1, year, month, day) {
        law_earlier_date_earlier_midnight(1970, 1, 1, year, month, day);
    }
}

proof fn lemma_year_length(year: int)
    ensures
        days_before_year(year + 1) == days_before_year(year) + 365 + (if is_leap_year(year) {
            1int
        } else {
            0
        }),
{
    let p = year - 1;
    assert((p + 1) / 4 - p / 4 == (if year % 4 == 0 { 1int } else { 0 })) by (nonlinear_arith)
        requires
            p == year - 1,
    ;
    assert((p + 1) / 100 - p / 100 == (if year % 100 == 0 { 1int } else { 0 })) by (nonlinear_arith)
        requires
            p == year - 1,
    ;
    assert((p + 1) / 400 - p / 400 == (if year % 400 == 0 { 1int } else { 0 })) by (nonlinear_arith)
        requires
            p == year - 1,
    ;
    assert(year % 400 == 0 ==> year % 100 == 0 && year % 4 == 0) by (nonlinear_arith);
    assert(year % 100 == 0 ==> year % 4 == 0) by (nonlinear_arith);
}

} // verus!
