use qwencode_rs::types::error::{is_abort_error, AbortError, QwenError, SDKError};

#[test]
fn test_abort_error_creation() {
    let err = AbortError::new();
    assert!(err.error_message().contains("aborted"));
}

#[test]
fn test_abort_error_equality() {
    let err1 = AbortError::new();
    let err2 = AbortError::new();
    assert_eq!(err1, err2);
}

#[test]
fn test_is_abort_error_true() {
    let err = QwenError::Aborted(AbortError::new());
    assert!(is_abort_error(&err));
}

#[test]
fn is_abort_error_false_for_other_errors() {
    assert!(!is_abort_error(&QwenError::Sdk(SDKError::Session("x".to_string()))));
    assert!(!is_abort_error(&QwenError::Message("Operation was aborted".to_string())));
}

#[test]
fn test_sdk_error_transport_variant() {
    let err = SDKError::Transport("connection failed".to_string());
    assert!(err.error_message().contains("Transport"));
    assert!(err.error_message().contains("connection failed"));
}

#[test]
fn test_sdk_error_session_variant() {
    let err = SDKError::Session("session closed".to_string());
    assert!(err.error_message().contains("Session"));
    assert!(err.error_message().contains("session closed"));
}

#[test]
fn test_sdk_error_invalid_config_variant() {
    let err = SDKError::InvalidConfig("missing model".to_string());
    assert!(err.error_message().contains("Invalid configuration"));
    assert!(err.error_message().contains("missing model"));
}

#[test]
fn test_sdk_error_mcp_variant() {
    let err = SDKError::Mcp("server unavailable".to_string());
    assert!(err.error_message().contains("MCP"));
    assert!(err.error_message().contains("server unavailable"));
}

#[test]
fn test_sdk_error_tool_execution_variant() {
    let err = SDKError::ToolExecution("tool not found".to_string());
    assert!(err.error_message().contains("Tool execution"));
    assert!(err.error_message().contains("tool not found"));
}

#[test]
fn test_sdk_error_debug_format() {
    let err = SDKError::Transport("test".to_string());
    let debug_str = format!("{:?}", err);
    assert!(debug_str.contains("Transport"));
}

#[test]
fn error_messages_are_exact() {
    assert_eq!(SDKError::Transport("t".to_string()).error_message(), "Transport error: t");
    assert_eq!(SDKError::Session("s".to_string()).error_message(), "Session error: s");
    assert_eq!(SDKError::InvalidConfig("c".to_string()).error_message(), "Invalid configuration: c");
    assert_eq!(SDKError::Mcp("m".to_string()).error_message(), "MCP error: m");
    assert_eq!(SDKError::ToolExecution("x".to_string()).error_message(), "Tool execution error: x");
    assert_eq!(SDKError::Other("plain".to_string()).error_message(), "plain");
    assert_eq!(QwenError::Aborted(AbortError).error_message(), "Operation was aborted");
    assert_eq!(QwenError::Message("m".to_string()).error_message(), "m");
    assert_eq!(QwenError::Sdk(SDKError::Mcp("z".to_string())).error_message(), "MCP error: z");
}
