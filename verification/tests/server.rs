use else_model::server::{log_line, log_prefix, Log, LogStamp};
use else_model::text::{push_signed_decimal, push_zero_padded};

#[test]
fn test_log_prefix() {
    let stamp = LogStamp { year: 2024, month: 3, day: 7, hour: 9, minute: 5, second: 0, millis: 42 };
    assert_eq!(log_prefix(&stamp, Log::Standard), "[2024-03-07 09:05:00.042] ");
    assert_eq!(log_prefix(&stamp, Log::Error), "[2024-03-07 09:05:00.042] ERROR ");
    assert_eq!(log_prefix(&stamp, Log::Warning), "[2024-03-07 09:05:00.042] WARNING ");
    assert_eq!(log_line(&stamp, Log::Debug, "ready"), "[2024-03-07 09:05:00.042] DEBUG ready");
}

#[test]
fn test_log_prefix_wide_fields() {
    // a leap second gives more than a thousand milliseconds, which are shown whole
    let stamp = LogStamp { year: -44, month: 12, day: 31, hour: 23, minute: 59, second: 59, millis: 1500 };
    assert_eq!(log_prefix(&stamp, Log::Standard), "[-44-12-31 23:59:59.1500] ");
}

#[test]
fn test_log_streams() {
    assert!(Log::Error.to_error_stream());
    assert!(Log::Warning.to_error_stream());
    assert!(!Log::Standard.to_error_stream());
    assert!(!Log::Debug.to_error_stream());
}

#[test]
fn test_padding() {
    let mut s = String::new();
    push_zero_padded(&mut s, 7, 3);
    push_zero_padded(&mut s, 1234, 2);
    push_signed_decimal(&mut s, i64::MIN);
    assert_eq!(s, "0071234-9223372036854775808");
}
