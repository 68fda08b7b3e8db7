//! Tests of the value parsers: resolutions, trim times and numbers.

use compresscli::error::CompressError;
use compresscli::parser::{ms_to_seconds_str, parse_resolution, parse_time, parse_u32};
use compresscli::text::parse_u64;

#[test]
fn test_parse_resolution() {
    assert_eq!(parse_resolution("1920x1080").unwrap(), (1920, 1080));
    assert_eq!(parse_resolution("720p").unwrap(), (1280, 720));
    assert_eq!(parse_resolution("1080p").unwrap(), (1920, 1080));
    assert!(parse_resolution("invalid").is_err());
}

#[test]
fn named_resolutions_map_to_standard_widths() {
    assert_eq!(parse_resolution("240p").unwrap(), (320, 240));
    assert_eq!(parse_resolution("2160p").unwrap(), (3840, 2160));
    // An unnamed height has no standard width.
    assert!(parse_resolution("999p").is_err());
    // More than one separator is rejected.
    assert!(parse_resolution("1x2x3").is_err());
}

#[test]
fn test_parse_time() {
    // Times are kept in whole milliseconds: 90 s, 1:30, 01:01:30.
    assert_eq!(parse_time("90").unwrap(), 90 * 1000);
    assert_eq!(parse_time("1:30").unwrap(), 90 * 1000);
    assert_eq!(parse_time("01:01:30").unwrap(), 3690 * 1000);
    assert!(parse_time("invalid").is_err());
}

#[test]
fn fractional_times_keep_their_milliseconds() {
    assert_eq!(parse_time("90.5").unwrap(), 90_500);
    assert_eq!(parse_time("1:30.25").unwrap(), 90_250);
    assert_eq!(parse_time("0.001").unwrap(), 1);
    // Each component may be fractional, as a decimal seconds value.
    assert_eq!(parse_time("1.5:30").unwrap(), 120_000);
}

#[test]
fn seconds_strings_render_without_trailing_zeros() {
    assert_eq!(ms_to_seconds_str(90_000), "90");
    assert_eq!(ms_to_seconds_str(90_500), "90.5");
    assert_eq!(ms_to_seconds_str(90_250), "90.25");
    assert_eq!(ms_to_seconds_str(90_125), "90.125");
    assert_eq!(ms_to_seconds_str(5), "0.005");
    // The rendering parses back to the same count.
    assert_eq!(parse_time(&ms_to_seconds_str(123_456)).unwrap(), 123_456);
}

#[test]
fn bad_times_name_the_parameter() {
    let e = parse_time("1:2:3:4").unwrap_err();
    assert!(matches!(
        e,
        CompressError::InvalidParameter { parameter, .. } if parameter == "time"
    ));
}

#[test]
fn decimal_parsing_is_exact() {
    assert_eq!(parse_u64("0"), Some(0));
    assert_eq!(parse_u64("18446744073709551615"), Some(u64::MAX));
    assert_eq!(parse_u64("18446744073709551616"), None);
    assert_eq!(parse_u64(""), None);
    assert_eq!(parse_u64("12a"), None);
    assert_eq!(parse_u32("4294967295"), Some(u32::MAX));
    assert_eq!(parse_u32("4294967296"), None);
}
