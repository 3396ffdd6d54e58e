use qwencode_rs::query::executor::{
    line_payload, next_query_request, next_reader_action, ReaderAction, ReaderEvent, RequestIds,
};
use qwencode_rs::transport::protocol::{ProtocolError, ProtocolMessage};
use qwencode_rs::types::error::{QwenError, SDKError};

fn json(text: &str) -> serde_json::Value {
    serde_json::from_str(text).unwrap()
}

fn message(method: Option<&str>, params: Option<&str>, error: Option<&str>) -> ProtocolMessage {
    ProtocolMessage {
        id: None,
        jsonrpc: "2.0".to_string(),
        method: method.map(|m| m.to_string()),
        params: params.map(json),
        result: None,
        error: error.map(|m| ProtocolError { code: 1, message: m.to_string(), data: None }),
    }
}

#[test]
fn reader_stops_on_cancel_and_end_of_output() {
    assert!(matches!(next_reader_action(ReaderEvent::Cancelled), ReaderAction::Stop));
    assert!(matches!(next_reader_action(ReaderEvent::Read(Ok(None))), ReaderAction::Stop));
}

#[test]
fn reader_reports_read_errors_and_stops() {
    let e = QwenError::Sdk(SDKError::Transport("pipe".to_string()));
    match next_reader_action(ReaderEvent::Read(Err(e))) {
        ReaderAction::ReportAndStop(err) => assert_eq!(err.error_message(), "Transport error: pipe"),
        _ => panic!("expected ReportAndStop"),
    }
}

#[test]
fn reader_delivers_skips_and_reports_messages() {
    let deliver = next_reader_action(ReaderEvent::Read(Ok(Some(message(Some("assistant_message"), Some(r#"{"content": "hi"}"#), None)))));
    match deliver {
        ReaderAction::Deliver(m) => assert!(m.is_assistant_message()),
        _ => panic!("expected Deliver"),
    }
    let skip = next_reader_action(ReaderEvent::Read(Ok(Some(message(Some("ping"), None, None)))));
    assert!(matches!(skip, ReaderAction::Skip));
    let report = next_reader_action(ReaderEvent::Read(Ok(Some(message(Some("error"), None, Some("bad"))))));
    match report {
        ReaderAction::Report(e) => assert_eq!(e.error_message(), "CLI error: bad"),
        _ => panic!("expected Report"),
    }
}

#[test]
fn line_payload_trims_and_detects_the_end() {
    assert_eq!(line_payload(0, "{}"), None);
    assert_eq!(line_payload(3, "  \n"), None);
    assert_eq!(line_payload(5, " {} \n"), Some("{}".to_string()));
    assert_eq!(line_payload(9, "\u{3000}a b\t"), Some("a b".to_string()));
}

#[test]
fn query_requests_number_from_one() {
    let (id, m) = next_query_request(0, json(r#"{"prompt": "p"}"#));
    assert_eq!(id, 1);
    assert_eq!(m.id, Some(1));
    assert_eq!(m.method.as_deref(), Some("query"));
    assert_eq!(m.params, Some(json(r#"{"prompt": "p"}"#)));
    let (id2, _) = next_query_request(id, json("null"));
    assert_eq!(id2, 2);
}

#[test]
fn request_ids_count_up_from_one() {
    let mut ids = RequestIds::new();
    assert_eq!(ids.last_id(), 0);
    let mut seen = Vec::new();
    for k in 1..=3u64 {
        let (id, m) = ids.next_query(json(r#"{"prompt": "p"}"#));
        assert_eq!(id, k);
        assert_eq!(m.id, Some(k));
        assert_eq!(m.method.as_deref(), Some("query"));
        assert!(!seen.contains(&id));
        seen.push(id);
    }
    assert_eq!(ids.last_id(), 3);
}
