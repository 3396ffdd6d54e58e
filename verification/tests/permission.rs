use qwencode_rs::types::permission::{PermissionChain, PermissionMode, ToolPermissionResult};

#[test]
fn test_permission_mode_default() {
    let mode = PermissionMode::default();
    assert_eq!(mode, PermissionMode::Default);
}

#[test]
fn test_permission_chain_is_excluded() {
    let chain = PermissionChain::new(
        vec!["dangerous_tool".to_string(), "write".to_string()],
        vec!["safe_tool".to_string()],
        PermissionMode::Default,
    );

    assert!(chain.is_excluded("dangerous_tool"));
    assert!(chain.is_excluded("write"));
    assert!(!chain.is_excluded("read_file"));
}

#[test]
fn test_permission_chain_is_excluded_wildcard() {
    let chain = PermissionChain::new(vec!["*".to_string()], vec![], PermissionMode::Default);

    assert!(chain.is_excluded("any_tool"));
    assert!(chain.is_excluded("another_tool"));
}

#[test]
fn test_permission_chain_is_explicitly_allowed() {
    let chain = PermissionChain::new(
        vec![],
        vec!["safe_tool".to_string(), "helper".to_string()],
        PermissionMode::Default,
    );

    assert!(chain.is_explicitly_allowed("safe_tool"));
    assert!(chain.is_explicitly_allowed("helper"));
    assert!(!chain.is_explicitly_allowed("unknown_tool"));
}

#[test]
fn test_permission_chain_should_auto_execute_yolo() {
    let chain = PermissionChain::new(vec![], vec![], PermissionMode::Yolo);

    assert!(chain.should_auto_execute("any_tool"));
    assert!(chain.should_auto_execute("write_file"));
}

#[test]
fn test_permission_chain_should_auto_execute_auto_edit() {
    let chain = PermissionChain::new(vec![], vec![], PermissionMode::AutoEdit);

    assert!(chain.should_auto_execute("edit"));
    assert!(chain.should_auto_execute("write_file"));
    assert!(!chain.should_auto_execute("read_file"));
    assert!(!chain.should_auto_execute("bash"));
}

#[test]
fn test_permission_chain_should_auto_execute_plan() {
    let chain = PermissionChain::new(vec![], vec![], PermissionMode::Plan);

    assert!(!chain.should_auto_execute("any_tool"));
}

#[test]
fn test_permission_chain_should_auto_execute_default() {
    let chain = PermissionChain::new(vec![], vec![], PermissionMode::Default);

    assert!(chain.should_auto_execute("read_file"));
    assert!(chain.should_auto_execute("read_directory"));
    assert!(!chain.should_auto_execute("write_file"));
    assert!(!chain.should_auto_execute("edit"));
}

#[test]
fn test_permission_chain_new_builder() {
    let chain = PermissionChain::new(
        vec!["excluded".to_string()],
        vec!["allowed".to_string()],
        PermissionMode::Yolo,
    );

    assert_eq!(chain.exclude_tools, vec!["excluded"]);
    assert_eq!(chain.allowed_tools, vec!["allowed"]);
    assert_eq!(chain.mode, PermissionMode::Yolo);
}

#[test]
fn permission_checks_on_edge_names() {
    let chain = PermissionChain::new(vec!["".to_string()], vec!["".to_string()], PermissionMode::Default);
    assert!(chain.is_excluded(""));
    assert!(!chain.is_excluded("*"));
    assert!(chain.is_explicitly_allowed(""));
    assert!(!chain.is_explicitly_allowed("x"));
    assert!(chain.should_auto_execute("read_"));
    assert!(!chain.should_auto_execute("read"));
    assert!(!chain.should_auto_execute("Read_file"));
    assert!(!chain.should_auto_execute(""));
    let edit = PermissionChain::new(vec![], vec![], PermissionMode::AutoEdit);
    assert!(!edit.should_auto_execute("edit "));
    assert!(!edit.should_auto_execute("write_files"));
    let star_listed_but_not_allowed = PermissionChain::new(vec![], vec!["*".to_string()], PermissionMode::Plan);
    assert!(!star_listed_but_not_allowed.is_explicitly_allowed("tool"));
}

#[test]
fn tool_permission_result_variants_hold_their_data() {
    let allow = ToolPermissionResult::Allow { updated_input: serde_json::from_str(r#"{"key": "value"}"#).unwrap() };
    match allow {
        ToolPermissionResult::Allow { updated_input } => assert_eq!(updated_input["key"], "value"),
        _ => panic!("expected Allow"),
    }
    let deny = ToolPermissionResult::Deny { message: "Access denied".to_string() };
    match deny {
        ToolPermissionResult::Deny { message } => assert_eq!(message, "Access denied"),
        _ => panic!("expected Deny"),
    }
}
