use chrono::{Datelike, NaiveDate};
use report_designer::calendar::{leap_year, midnight_utc_timestamp};
use report_designer::dates::{date_only_from_parsed, deserialize_date_only, serialize_datetime};

fn chrono_midnight(y: i32, m: u32, d: u32) -> i64 {
    NaiveDate::from_ymd_opt(y, m, d)
        .unwrap()
        .and_hms_opt(0, 0, 0)
        .unwrap()
        .and_utc()
        .timestamp()
}

#[test]
fn epoch_starts_at_zero() {
    assert_eq!(midnight_utc_timestamp(1970, 1, 1), 0);
}

#[test]
fn midnight_timestamps_of_known_dates() {
    assert_eq!(midnight_utc_timestamp(2024, 3, 5), 1709596800);
    assert_eq!(midnight_utc_timestamp(2000, 2, 29), 951782400);
    assert_eq!(midnight_utc_timestamp(1969, 12, 31), -86400);
    assert_eq!(midnight_utc_timestamp(1, 1, 1), -62135596800);
    assert_eq!(midnight_utc_timestamp(0, 3, 1), -62162035200);
}

#[test]
fn next_day_is_one_day_later_across_year_end() {
    assert_eq!(
        midnight_utc_timestamp(2025, 1, 1) - midnight_utc_timestamp(2024, 12, 31),
        86400
    );
    assert_eq!(
        midnight_utc_timestamp(2024, 3, 1) - midnight_utc_timestamp(2024, 2, 29),
        86400
    );
    assert_eq!(
        midnight_utc_timestamp(1900, 3, 1) - midnight_utc_timestamp(1900, 2, 28),
        86400
    );
}

#[test]
fn calendar_edges_agree_with_chrono() {
    for &(y, m, d) in &[
        (-262143, 1, 1),
        (262142, 12, 31),
        (-1, 12, 31),
        (0, 2, 29),
        (-100, 3, 1),
        (-400, 2, 29),
        (1600, 2, 29),
    ] {
        assert_eq!(midnight_utc_timestamp(y, m, d), chrono_midnight(y, m, d), "{} {} {}", y, m, d);
    }
}

#[test]
fn every_day_of_four_centuries_agrees_with_chrono() {
    let mut date = NaiveDate::from_ymd_opt(1800, 1, 1).unwrap();
    let end = NaiveDate::from_ymd_opt(2200, 1, 1).unwrap();
    while date < end {
        assert_eq!(
            midnight_utc_timestamp(date.year(), date.month(), date.day()),
            chrono_midnight(date.year(), date.month(), date.day())
        );
        date = date.succ_opt().unwrap();
    }
}

#[test]
fn leap_years() {
    assert!(leap_year(2000));
    assert!(!leap_year(1900));
    assert!(leap_year(2024));
    assert!(!leap_year(2023));
    assert!(leap_year(0));
    assert!(leap_year(-4));
    assert!(!leap_year(-100));
}

#[test]
fn date_only_text_becomes_midnight_timestamp() {
    assert_eq!(
        deserialize_date_only(Some("2024-03-05".to_string())),
        Ok(Some(1709596800))
    );
    assert_eq!(deserialize_date_only(None), Ok(None));
}

#[test]
fn date_only_text_that_is_no_date_is_an_error() {
    let r = deserialize_date_only(Some("2015-02-30".to_string()));
    assert!(r.is_err());
    let r = deserialize_date_only(Some("not a date".to_string()));
    let message = r.unwrap_err();
    assert!(!message.is_empty());
}

#[test]
fn parsed_date_becomes_midnight_or_keeps_error() {
    assert_eq!(date_only_from_parsed(Ok((1970, 1, 2))), Ok(86400));
    assert_eq!(
        date_only_from_parsed(Err("bad".to_string())),
        Err("bad".to_string())
    );
}

#[test]
fn timestamps_are_written_as_utc_date_and_time() {
    assert_eq!(serialize_datetime(0), Some("1970-01-01 00:00:00".to_string()));
    assert_eq!(
        serialize_datetime(1709643600),
        Some("2024-03-05 13:00:00".to_string())
    );
    assert_eq!(serialize_datetime(-1), Some("1969-12-31 23:59:59".to_string()));
    assert_eq!(serialize_datetime(i64::MAX), None);
}
