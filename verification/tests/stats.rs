use hft_risk_api::stats::{parse_info_field, parse_u64};
use hft_risk_api::strutil::{str_contains, str_eq, str_starts_with};

#[test]
fn test_parse_u64_values() {
    assert_eq!(parse_u64("0"), Some(0));
    assert_eq!(parse_u64("12345"), Some(12345));
    assert_eq!(parse_u64("18446744073709551615"), Some(u64::MAX));
}

#[test]
fn test_parse_u64_rejects() {
    assert_eq!(parse_u64(""), None);
    assert_eq!(parse_u64("12a"), None);
    assert_eq!(parse_u64("-5"), None);
    assert_eq!(parse_u64(" 7"), None);
    // One past the 64-bit range.
    assert_eq!(parse_u64("18446744073709551616"), None);
}

#[test]
fn test_parse_info_field_finds_value() {
    let info = "# Memory\r\nused_memory:1048576\r\nconnected_clients:42\r\nkeyspace_hits:9\r\n";
    assert_eq!(parse_info_field(info, "used_memory:"), Some(1_048_576));
    assert_eq!(parse_info_field(info, "connected_clients:"), Some(42));
    assert_eq!(parse_info_field(info, "keyspace_hits:"), Some(9));
    assert_eq!(parse_info_field(info, "keyspace_misses:"), None);
}

#[test]
fn test_parse_info_field_takes_first_matching_line() {
    let info = "used_memory:10\nused_memory:20\n";
    assert_eq!(parse_info_field(info, "used_memory:"), Some(10));
}

#[test]
fn test_parse_info_field_non_numeric_value() {
    let info = "role:master\r\nused_memory:abc\r\n";
    assert_eq!(parse_info_field(info, "used_memory:"), None);
    assert_eq!(parse_info_field(info, "role:"), None);
}

#[test]
fn test_string_utilities() {
    assert!(str_contains("hello world", "lo w"));
    assert!(str_contains("anything", ""));
    assert!(!str_contains("", "x"));
    assert!(!str_contains("abc", "abcd"));
    assert!(str_contains("héllo", "é"));

    assert!(str_eq("same", "same"));
    assert!(!str_eq("same", "sama"));
    assert!(!str_eq("same", "sam"));

    assert!(str_starts_with("used_memory:1", "used_memory:"));
    assert!(!str_starts_with("used", "used_memory:"));
}
