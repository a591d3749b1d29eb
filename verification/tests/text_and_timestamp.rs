use rnote_ui::text::{append_decimal, append_signed_decimal, decimal_string, str_eq};
use rnote_ui::timestamp::{format_unix_timestamp, timestamp_label};

#[test]
fn str_eq_compares_contents() {
    assert!(str_eq("abc", "abc"));
    assert!(!str_eq("abc", "abd"));
    assert!(!str_eq("", "a"));
    assert!(str_eq("", ""));
}

#[test]
fn decimal_string_exact_values() {
    assert_eq!(decimal_string(0), "0");
    assert_eq!(decimal_string(7), "7");
    assert_eq!(decimal_string(10), "10");
    assert_eq!(decimal_string(1234567890), "1234567890");
    assert_eq!(decimal_string(u64::MAX), "18446744073709551615");
}

#[test]
fn append_decimal_keeps_prefix() {
    let mut s = String::from("n=");
    append_decimal(&mut s, 405);
    assert_eq!(s, "n=405");
}

#[test]
fn append_signed_decimal_values() {
    let mut s = String::new();
    append_signed_decimal(&mut s, -42);
    assert_eq!(s, "-42");
    let mut s = String::new();
    append_signed_decimal(&mut s, i32::MIN);
    assert_eq!(s, "-2147483648");
    let mut s = String::from("x");
    append_signed_decimal(&mut s, 0);
    assert_eq!(s, "x0");
}

#[test]
fn format_unix_timestamp_epoch() {
    assert_eq!(format_unix_timestamp(0), "Thu, 01 Jan 1970 00:00:00 +0000");
}

#[test]
fn format_unix_timestamp_new_year_2019() {
    assert_eq!(format_unix_timestamp(1546300800), "Tue, 01 Jan 2019 00:00:00 +0000");
}

#[test]
fn format_unix_timestamp_before_1900_fails_to_format() {
    // 1874: a valid date, but RFC 2822 only covers years from 1900
    assert_eq!(format_unix_timestamp(-3000000000), "Error formatting time");
}

#[test]
fn format_unix_timestamp_out_of_range_fails_to_convert() {
    assert_eq!(format_unix_timestamp(i64::MIN), "Error getting time");
    assert_eq!(format_unix_timestamp(i64::MAX), "Error getting time");
}

#[test]
fn timestamp_label_outcomes() {
    assert_eq!(timestamp_label(None), "Error getting time");
    assert_eq!(timestamp_label(Some(Err(()))), "Error formatting time");
    assert_eq!(timestamp_label(Some(Ok(String::from("some date")))), "some date");
}
