use qwencode_rs::transport::protocol::{
    create_error, create_notification, create_request, create_response, ProtocolError, ProtocolMessage,
};

fn json(text: &str) -> serde_json::Value {
    serde_json::from_str(text).unwrap()
}

#[test]
fn test_create_request() {
    let msg = create_request(1, "initialize", Some(json(r#"{"version": "1.0"}"#)));

    assert_eq!(msg.id, Some(1));
    assert_eq!(msg.jsonrpc, "2.0");
    assert_eq!(msg.method, Some("initialize".to_string()));
    assert!(msg.params.is_some());
    assert!(msg.result.is_none());
    assert!(msg.error.is_none());
}

#[test]
fn test_create_response() {
    let msg = create_response(1, json(r#"{"status": "ok"}"#));

    assert_eq!(msg.id, Some(1));
    assert_eq!(msg.jsonrpc, "2.0");
    assert!(msg.method.is_none());
    assert!(msg.result.is_some());
    assert!(msg.error.is_none());
}

#[test]
fn test_create_error() {
    let msg = create_error(1, -32600, "Invalid Request");

    assert_eq!(msg.id, Some(1));
    assert_eq!(msg.jsonrpc, "2.0");
    assert!(msg.method.is_none());
    assert!(msg.result.is_none());
    assert!(msg.error.is_some());

    let error = msg.error.unwrap();
    assert_eq!(error.code, -32600);
    assert_eq!(error.message, "Invalid Request");
}

#[test]
fn test_create_notification() {
    let msg = create_notification("update", Some(json(r#"{"progress": 50}"#)));

    assert_eq!(msg.id, None);
    assert_eq!(msg.jsonrpc, "2.0");
    assert_eq!(msg.method, Some("update".to_string()));
    assert!(msg.params.is_some());
    assert!(msg.result.is_none());
    assert!(msg.error.is_none());
}

#[test]
fn test_protocol_error_structure() {
    let error = ProtocolError {
        code: -32601,
        message: "Method not found".to_string(),
        data: Some(json(r#"{"details": "unknown method"}"#)),
    };

    assert_eq!(error.code, -32601);
    assert_eq!(error.message, "Method not found");
    assert!(error.data.is_some());
}

#[test]
fn test_protocol_message_debug_format() {
    let msg = create_request(1, "init", None);
    let debug_str = format!("{:?}", msg);

    assert!(debug_str.contains("ProtocolMessage"));
    assert!(debug_str.contains("jsonrpc"));
}

#[test]
fn constructors_carry_their_arguments() {
    let p = json(r#"[1, "two"]"#);
    let r = create_request(u64::MAX, "m", Some(p.clone()));
    assert_eq!(r.params, Some(p.clone()));
    assert_eq!(r.id, Some(u64::MAX));
    let resp = create_response(0, p.clone());
    assert_eq!(resp.result, Some(p.clone()));
    assert!(resp.params.is_none());
    let n = create_notification("", None);
    assert_eq!(n.method.as_deref(), Some(""));
    assert!(n.params.is_none());
    let e = create_error(7, i64::MIN, "");
    let err = e.error.unwrap();
    assert_eq!((err.code, err.message.as_str(), err.data.is_none()), (i64::MIN, "", true));
    let _: &ProtocolMessage = &resp;
}
