use std::path::PathBuf;

use qwencode_rs::utils::helpers::{format_duration_ms, get_default_qwen_path, string_to_path};

#[test]
fn test_format_duration_ms_less_than_second() {
    assert_eq!(format_duration_ms(500), "500ms");
    assert_eq!(format_duration_ms(1), "1ms");
    assert_eq!(format_duration_ms(999), "999ms");
}

#[test]
fn test_format_duration_ms_less_than_minute() {
    assert_eq!(format_duration_ms(1000), "1.0s");
    assert_eq!(format_duration_ms(1500), "1.5s");
    assert_eq!(format_duration_ms(59999), "60.0s");
}

#[test]
fn test_format_duration_ms_minutes() {
    assert_eq!(format_duration_ms(60000), "1m 0s");
    assert_eq!(format_duration_ms(90000), "1m 30s");
    assert_eq!(format_duration_ms(120000), "2m 0s");
}

#[test]
fn test_string_to_path() {
    let path = string_to_path("/tmp/test");
    assert_eq!(path, PathBuf::from("/tmp/test"));
}

#[test]
fn test_get_default_qwen_path_returns_option() {
    let result = get_default_qwen_path(|_name: &str| false);
    assert!(result.is_none() || result.is_some());
}

#[test]
fn default_qwen_path_prefers_qwen_then_qwen_code() {
    assert_eq!(get_default_qwen_path(|_name: &str| true), Some(PathBuf::from("qwen")));
    assert_eq!(get_default_qwen_path(|name: &str| name == "qwen-code"), Some(PathBuf::from("qwen-code")));
    assert_eq!(get_default_qwen_path(|name: &str| name == "other"), None);
}

#[test]
fn format_duration_matches_float_formatting_under_a_minute() {
    for ms in 1000u64..60000 {
        let expected = format!("{:.1}s", ms as f64 / 1000.0);
        assert_eq!(format_duration_ms(ms), expected, "ms = {}", ms);
    }
}

#[test]
fn format_duration_edges() {
    assert_eq!(format_duration_ms(0), "0ms");
    assert_eq!(format_duration_ms(1250), "1.2s");
    assert_eq!(format_duration_ms(1050), "1.1s");
    assert_eq!(format_duration_ms(1150), "1.1s");
    assert_eq!(format_duration_ms(3599999), "59m 59s");
    assert_eq!(format_duration_ms(3600000), "60m 0s");
    assert_eq!(format_duration_ms(u64::MAX), format!("{}m {}s", u64::MAX / 60000, (u64::MAX % 60000) / 1000));
}

#[test]
fn string_to_path_gives_its_text_back() {
    let path = string_to_path("/tmp/test");
    assert_eq!(path.to_str(), Some("/tmp/test"));
    let empty = string_to_path("");
    assert_eq!(empty.to_str(), Some(""));
}
