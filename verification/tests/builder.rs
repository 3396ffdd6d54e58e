use std::path::PathBuf;

use qwencode_rs::query::builder::QueryBuilder;
use qwencode_rs::query::handler::query_builder;
use qwencode_rs::types::permission::PermissionMode;

#[test]
fn test_query_builder_default() {
    let builder = QueryBuilder::new();
    assert!(builder.prompt.is_none());
}

#[test]
fn test_query_builder_prompt() {
    let builder = QueryBuilder::new().prompt("Hello, world!");

    assert_eq!(builder.prompt, Some("Hello, world!".to_string()));
}

#[test]
fn test_query_builder_cwd() {
    let builder = QueryBuilder::new().cwd("/tmp/test");

    assert_eq!(builder.options.cwd, Some(PathBuf::from("/tmp/test")));
}

#[test]
fn test_query_builder_model() {
    let builder = QueryBuilder::new().model("qwen-max");

    assert_eq!(builder.options.model, Some("qwen-max".to_string()));
}

#[test]
fn test_query_builder_permission_mode() {
    let builder = QueryBuilder::new().permission_mode(PermissionMode::Yolo);

    assert_eq!(builder.options.permission_mode, PermissionMode::Yolo);
}

#[test]
fn test_query_builder_debug() {
    let builder = QueryBuilder::new().debug(true);

    assert!(builder.options.debug);
}

#[test]
fn test_query_builder_max_turns() {
    let builder = QueryBuilder::new().max_turns(10);

    assert_eq!(builder.options.max_session_turns, 10);
}

#[test]
fn test_query_builder_session_id() {
    let builder = QueryBuilder::new().session_id("my-session");

    assert_eq!(builder.options.session_id, Some("my-session".to_string()));
}

#[test]
fn test_query_builder_build() {
    let (prompt, options) = QueryBuilder::new().prompt("Test").model("qwen-plus").debug(true).build().unwrap();

    assert_eq!(prompt, Some("Test".to_string()));
    assert_eq!(options.model, Some("qwen-plus".to_string()));
    assert!(options.debug);
}

#[test]
fn test_query_builder_execute() {
    let handle = QueryBuilder::new().prompt("Test query").session_id("test-session").execute().unwrap();

    assert_eq!(handle.session_id(), "test-session");
    assert!(!handle.is_closed());
}

#[test]
fn test_query_builder_chained_calls() {
    let builder = QueryBuilder::new()
        .prompt("Hello")
        .model("qwen-max")
        .cwd("/tmp")
        .permission_mode(PermissionMode::AutoEdit)
        .debug(true)
        .max_turns(5)
        .session_id("chained-test");

    assert_eq!(builder.prompt, Some("Hello".to_string()));
    assert_eq!(builder.options.model, Some("qwen-max".to_string()));
    assert_eq!(builder.options.cwd, Some(PathBuf::from("/tmp")));
    assert_eq!(builder.options.permission_mode, PermissionMode::AutoEdit);
    assert!(builder.options.debug);
    assert_eq!(builder.options.max_session_turns, 5);
    assert_eq!(builder.options.session_id, Some("chained-test".to_string()));
}

#[test]
fn test_query_builder_function() {
    let builder = query_builder();
    assert!(builder.prompt.is_none());
}

#[test]
fn execute_without_session_generates_one() {
    let handle = QueryBuilder::default().execute().unwrap();
    assert_eq!(handle.session_id().len(), 36);
    let (prompt, options) = query_builder().build().unwrap();
    assert!(prompt.is_none());
    assert_eq!(options.max_session_turns, -1);
}
