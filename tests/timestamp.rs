use smite_api::error::ApiError;
use smite_api::timestamp::{get_formatted_time, month_length, timestamp_from_fields, Timestamp};

fn ts(y: u32, mo: u32, d: u32, h: u32, mi: u32, s: u32) -> Timestamp {
    Timestamp::new(y, mo, d, h, mi, s).unwrap()
}

#[test]
fn text_is_fourteen_zero_padded_digits() {
    assert_eq!(ts(2023, 1, 1, 12, 0, 30).to_text(), "20230101120030");
    assert_eq!(ts(7, 3, 4, 5, 6, 7).to_text(), "00070304050607");
}

#[test]
fn new_rejects_invalid_fields() {
    assert!(Timestamp::new(2023, 2, 29, 0, 0, 0).is_none());
    assert!(Timestamp::new(2024, 2, 29, 0, 0, 0).is_some());
    assert!(Timestamp::new(1900, 2, 29, 0, 0, 0).is_none());
    assert!(Timestamp::new(2000, 2, 29, 0, 0, 0).is_some());
    assert!(Timestamp::new(2023, 13, 1, 0, 0, 0).is_none());
    assert!(Timestamp::new(2023, 4, 31, 0, 0, 0).is_none());
    assert!(Timestamp::new(2023, 1, 0, 0, 0, 0).is_none());
    assert!(Timestamp::new(2023, 1, 1, 24, 0, 0).is_none());
    assert!(Timestamp::new(2023, 1, 1, 0, 60, 0).is_none());
    assert!(Timestamp::new(2023, 1, 1, 0, 0, 60).is_none());
    assert!(Timestamp::new(10000, 1, 1, 0, 0, 0).is_none());
    assert!(Timestamp::new(9999, 12, 31, 23, 59, 59).is_some());
}

#[test]
fn month_lengths() {
    assert_eq!(month_length(2023, 1), 31);
    assert_eq!(month_length(2023, 2), 28);
    assert_eq!(month_length(2024, 2), 29);
    assert_eq!(month_length(2023, 4), 30);
}

#[test]
fn correction_subtracts_fifteen_seconds() {
    let now = ts(2023, 1, 1, 12, 0, 30);
    assert_eq!(now.minus_seconds(15).unwrap().to_text(), "20230101120015");
}

#[test]
fn correction_borrows_across_the_minute() {
    let now = ts(2023, 1, 1, 12, 0, 5);
    let corrected = now.minus_seconds(15).unwrap().to_text();
    assert_eq!(corrected, "20230101115950");
    // Subtracting from the digits as one integer does not borrow through the
    // fields and gives a time that does not exist.
    let naive = ("20230101120005".parse::<u64>().unwrap() - 15).to_string();
    assert_eq!(naive, "20230101119990");
    assert_ne!(naive, corrected);
}

#[test]
fn correction_borrows_across_days_months_and_years() {
    assert_eq!(ts(2024, 3, 1, 0, 0, 10).minus_seconds(15).unwrap().to_text(), "20240229235955");
    assert_eq!(ts(2023, 3, 1, 0, 0, 10).minus_seconds(15).unwrap().to_text(), "20230228235955");
    assert_eq!(ts(2023, 1, 1, 0, 0, 0).minus_seconds(15).unwrap().to_text(), "20221231235945");
    assert_eq!(ts(2023, 5, 1, 0, 0, 0).previous_second().unwrap().to_text(), "20230430235959");
}

#[test]
fn correction_stops_at_the_first_second_of_year_zero() {
    let start = ts(0, 1, 1, 0, 0, 0);
    assert!(start.previous_second().is_none());
    assert!(ts(0, 1, 1, 0, 0, 14).minus_seconds(15).is_none());
    assert_eq!(ts(0, 1, 1, 0, 0, 15).minus_seconds(15), Some(start));
    assert_eq!(start.minus_seconds(0), Some(start));
}

#[test]
fn formatted_time_is_fourteen_digits() {
    let r: Result<String, ApiError> = get_formatted_time();
    let s = r.unwrap();
    assert_eq!(s.len(), 14);
    assert!(s.chars().all(|c| c.is_ascii_digit()));
}

#[test]
fn clock_fields_outside_the_four_digit_years_are_out_of_range() {
    assert_eq!(timestamp_from_fields(-1, 12, 31, 23, 59, 59), Err(ApiError::ClockOutOfRange));
    assert_eq!(timestamp_from_fields(10000, 1, 1, 0, 0, 0), Err(ApiError::ClockOutOfRange));
    assert_eq!(timestamp_from_fields(2023, 2, 29, 0, 0, 0), Err(ApiError::ClockOutOfRange));
    let t = timestamp_from_fields(2023, 1, 1, 12, 0, 30).unwrap();
    assert_eq!(t.to_text(), "20230101120030");
    assert_eq!(t, Timestamp::new(2023, 1, 1, 12, 0, 30).unwrap());
}
