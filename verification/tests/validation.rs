use qwencode_rs::utils::validation::{sanitize_string, validate_model_name, validate_path, validate_session_id};

#[test]
fn test_validate_model_name_valid() {
    assert!(validate_model_name("qwen-max"));
    assert!(validate_model_name("qwen-plus"));
    assert!(validate_model_name("model_123"));
    assert!(validate_model_name("org/model-v1"));
}

#[test]
fn test_validate_model_name_empty() {
    assert!(!validate_model_name(""));
}

#[test]
fn test_validate_model_name_invalid_chars() {
    assert!(!validate_model_name("model name"));
    assert!(!validate_model_name("model@name"));
    assert!(!validate_model_name("model/name!"));
}

#[test]
fn test_validate_session_id_valid() {
    assert!(validate_session_id("session-123"));
    assert!(validate_session_id("abc_def"));
    assert!(validate_session_id("session123"));
}

#[test]
fn test_validate_session_id_empty() {
    assert!(!validate_session_id(""));
}

#[test]
fn test_validate_session_id_too_long() {
    let long_id = "a".repeat(257);
    assert!(!validate_session_id(&long_id));
}

#[test]
fn test_validate_session_id_max_length() {
    let max_id = "a".repeat(256);
    assert!(validate_session_id(&max_id));
}

#[test]
fn test_validate_session_id_invalid_chars() {
    assert!(!validate_session_id("session@id"));
    assert!(!validate_session_id("session/id"));
    assert!(!validate_session_id("session id"));
}

#[test]
fn test_validate_path_valid() {
    assert!(validate_path("/tmp/test"));
    assert!(validate_path("./relative"));
    assert!(validate_path("C:\\Windows\\path"));
}

#[test]
fn test_validate_path_empty() {
    assert!(!validate_path(""));
}

#[test]
fn test_validate_path_with_null() {
    assert!(!validate_path("/tmp/test\0malicious"));
}

#[test]
fn test_sanitize_string_removes_non_ascii() {
    let input = "Hello\x00World\x01Test";
    let sanitized = sanitize_string(input);
    assert_eq!(sanitized, "HelloWorldTest");
}

#[test]
fn test_sanitize_string_keeps_valid_chars() {
    let input = "Hello World 123!@#";
    let sanitized = sanitize_string(input);
    assert_eq!(sanitized, "Hello World 123!@#");
}

#[test]
fn test_sanitize_string_empty() {
    let sanitized = sanitize_string("");
    assert_eq!(sanitized, "");
}

#[test]
fn test_sanitize_string_only_invalid_chars() {
    let input = "\x00\x01\x02\x03";
    let sanitized = sanitize_string(input);
    assert_eq!(sanitized, "");
}

#[test]
fn session_id_length_counts_bytes() {
    // 128 two-byte characters are 256 bytes; 129 are 258.
    assert!(validate_session_id(&"é".repeat(128)));
    assert!(!validate_session_id(&"é".repeat(129)));
}

#[test]
fn validators_accept_unicode_alphanumerics() {
    assert!(validate_model_name("modèle"));
    assert!(validate_session_id("セッション1"));
    assert!(!validate_model_name("a\tb"));
}

#[test]
fn sanitizer_keeps_unicode_white_space_and_drops_other_non_ascii() {
    assert_eq!(sanitize_string("a\u{00A0}b\u{00E9}c\td\n"), "a\u{00A0}bc\td\n");
    let once = sanitize_string("x\u{0007}y z\u{2028}é");
    assert_eq!(sanitize_string(&once), once);
}

#[test]
fn validate_path_nul_anywhere() {
    assert!(!validate_path("\0"));
    assert!(!validate_path("abc\0"));
    assert!(validate_path(" "));
}

#[test]
fn sanitizer_keeps_unicode_white_space() {
    assert_eq!(sanitize_string("a\u{3000}b\u{85}c\u{7f}d\u{200b}e"), "a\u{3000}b\u{85}cde");
}
