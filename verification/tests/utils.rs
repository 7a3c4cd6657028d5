use sonor::Error;
use sonor::utils::{
    eq_ignore_ascii_case, parse_bool, parse_u32, seconds_from_str, seconds_to_str, str_has_prefix,
};

#[test]
fn test_seconds_to_str_zero() {
    assert_eq!(seconds_to_str(0), "00:00:00");
}

#[test]
fn test_seconds_to_str_mixed() {
    assert_eq!(seconds_to_str(3661), "01:01:01");
    assert_eq!(seconds_to_str(59), "00:00:59");
    assert_eq!(seconds_to_str(600), "00:10:00");
}

#[test]
fn test_seconds_to_str_negative() {
    assert_eq!(seconds_to_str(-3661), "-01:01:01");
}

#[test]
fn test_seconds_to_str_long_hours() {
    assert_eq!(seconds_to_str(360_061), "100:01:01");
}

#[test]
fn test_seconds_from_str_round_values() {
    assert_eq!(seconds_from_str("1:02:03"), Ok(3723));
    assert_eq!(seconds_from_str("0:0:5"), Ok(5));
    assert_eq!(seconds_from_str("00:00:00"), Ok(0));
}

#[test]
fn test_seconds_from_str_rejects_malformed() {
    assert_eq!(seconds_from_str("bad"), Err(Error::ProtocolError));
    assert_eq!(seconds_from_str("1:2"), Err(Error::ProtocolError));
    assert_eq!(seconds_from_str("::"), Err(Error::ProtocolError));
    assert_eq!(seconds_from_str("1:2:3:4"), Err(Error::ProtocolError));
    assert_eq!(seconds_from_str(""), Err(Error::ProtocolError));
}

#[test]
fn test_parse_u32_accepts_digits() {
    assert_eq!(parse_u32("42"), Some(42));
    assert_eq!(parse_u32("0"), Some(0));
    assert_eq!(parse_u32("4294967295"), Some(u32::MAX));
}

#[test]
fn test_parse_u32_rejects_bad_input() {
    assert_eq!(parse_u32(""), None);
    assert_eq!(parse_u32("12a"), None);
    assert_eq!(parse_u32("-3"), None);
    assert_eq!(parse_u32("4294967296"), None);
}

#[test]
fn test_parse_bool_values() {
    assert_eq!(parse_bool("0"), Ok(false));
    assert_eq!(parse_bool("1"), Ok(true));
    assert_eq!(parse_bool(" 1 "), Ok(true));
}

#[test]
fn test_parse_bool_rejects_other_input() {
    assert_eq!(parse_bool("2"), Err(Error::ProtocolError));
    assert_eq!(parse_bool(""), Err(Error::ProtocolError));
    assert_eq!(parse_bool("10"), Err(Error::ProtocolError));
    assert_eq!(parse_bool("true"), Err(Error::ProtocolError));
}

#[test]
fn test_seconds_round_trip() {
    for &value in &[0u32, 1, 59, 60, 3599, 3600, 3661, 86399, 360_061] {
        let rendered = seconds_to_str(value.into());
        assert_eq!(seconds_from_str(&rendered), Ok(value));
    }
}

#[test]
fn test_eq_ignore_ascii_case() {
    assert!(eq_ignore_ascii_case("Kitchen", "kITCHEN"));
    assert!(eq_ignore_ascii_case("", ""));
    assert!(!eq_ignore_ascii_case("Kitchen", "Den"));
    assert!(!eq_ignore_ascii_case("a", "ab"));
}

#[test]
fn test_str_has_prefix() {
    assert!(str_has_prefix("x-sonos-vli:stream", "x-sonos-vli"));
    assert!(!str_has_prefix("http://example", "x-sonos-vli"));
    assert!(!str_has_prefix("x", "x-sonos-vli"));
}
