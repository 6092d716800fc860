use dark_pattern_blocker::duration::{
    checked_parse_time_to_seconds, format_duration, parse_time_to_seconds, ParseError,
};

#[test]
fn parse_duration_just_hour() {
    assert_eq!(parse_time_to_seconds("2h"), Ok(7200));
}

#[test]
fn parse_duration_just_minute() {
    assert_eq!(parse_time_to_seconds("30m"), Ok(1800));
}

#[test]
fn parse_duration_just_second() {
    assert_eq!(parse_time_to_seconds("15s"), Ok(15));
}

#[test]
fn parse_duration_hour_and_minute() {
    assert_eq!(parse_time_to_seconds("2h30m"), Ok(9000));
}

#[test]
fn parse_duration_hour_and_second() {
    assert_eq!(parse_time_to_seconds("2h15s"), Ok(7215));
}

#[test]
fn parse_duration_minute_and_second() {
    assert_eq!(parse_time_to_seconds("45m30s"), Ok(2730));
}

#[test]
fn parse_duration_hour_minute_second() {
    assert_eq!(parse_time_to_seconds("1h1m1s"), Ok(3661));
}

#[test]
fn empty_string_returns_error() {
    assert_eq!(parse_time_to_seconds(""), Err(ParseError::Empty));
}

#[test]
fn invalid_format_returns_error() {
    assert_eq!(parse_time_to_seconds("abc"), Err(ParseError::InvalidFormat));
}

#[test]
fn number_without_unit_returns_error() {
    assert_eq!(parse_time_to_seconds("30"), Err(ParseError::InvalidFormat));
}

#[test]
fn trailing_garbage_returns_error() {
    assert_eq!(parse_time_to_seconds("1h30mxyz"), Err(ParseError::InvalidFormat));
}

#[test]
fn format_duration_just_hour() {
    assert_eq!(format_duration(7200), "2h");
}

#[test]
fn format_duration_just_minute() {
    assert_eq!(format_duration(60), "1m");
}

#[test]
fn format_duration_just_second() {
    assert_eq!(format_duration(1), "1s");
}

#[test]
fn format_duration_hour_and_minute() {
    assert_eq!(format_duration(7260), "2h1m");
}

#[test]
fn format_duration_hour_and_second() {
    assert_eq!(format_duration(7201), "2h1s");
}

#[test]
fn format_duration_minute_and_second() {
    assert_eq!(format_duration(61), "1m1s");
}

#[test]
fn format_duration_hour_minute_second() {
    assert_eq!(format_duration(3661), "1h1m1s");
}

#[test]
fn zero_returns_0s() {
    assert_eq!(format_duration(0), "0s");
}

#[test]
fn parse_units_out_of_order_is_invalid() {
    assert_eq!(parse_time_to_seconds("30m2h"), Err(ParseError::InvalidFormat));
    assert_eq!(parse_time_to_seconds("1h 30m"), Err(ParseError::InvalidFormat));
}

#[test]
fn parse_leading_zeros_and_large_counts() {
    assert_eq!(parse_time_to_seconds("007m"), Ok(420));
    assert_eq!(parse_time_to_seconds("90s"), Ok(90));
    assert_eq!(parse_time_to_seconds("100h"), Ok(360000));
}

#[test]
fn parse_group_too_long_for_u64_counts_zero() {
    assert_eq!(parse_time_to_seconds("99999999999999999999999s"), Ok(0));
}

#[test]
fn checked_parse_reports_overflow() {
    assert_eq!(checked_parse_time_to_seconds("5124095576030432h"), None);
    assert_eq!(checked_parse_time_to_seconds("25m"), Some(Ok(1500)));
    assert_eq!(checked_parse_time_to_seconds(""), Some(Err(ParseError::Empty)));
}

#[test]
fn format_then_parse_roundtrip() {
    for n in [0u64, 1, 59, 60, 61, 3599, 3600, 3661, 86399, 90061, 1_000_000] {
        assert_eq!(parse_time_to_seconds(&format_duration(n)), Ok(n));
    }
}

#[test]
fn format_large_hours() {
    assert_eq!(format_duration(360000), "100h");
    assert_eq!(format_duration(u64::MAX), "5124095576030431h15s");
}

#[test]
fn non_ascii_digits_match_but_count_zero() {
    // U+0661 ARABIC-INDIC DIGIT ONE is a decimal digit for the pattern, but
    // does not read as a number.
    assert_eq!(parse_time_to_seconds("\u{0661}h"), Ok(0));
    assert_eq!(parse_time_to_seconds("\u{0661}h5s"), Ok(5));
    assert_eq!(parse_time_to_seconds("\u{00BD}h"), Err(ParseError::InvalidFormat));
}
