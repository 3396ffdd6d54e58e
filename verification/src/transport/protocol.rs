//! JSON-RPC 2.0 protocol messages and their constructors.

use vstd::prelude::*;
use vstd::string::StringExecFns;

verus! {

broadcast use vstd::string::group_string_axioms;

/// Protocol message for stdin/stdout communication.
#[derive(Debug, Clone)]
pub struct ProtocolMessage {
    pub id: Option<u64>,
    pub jsonrpc: String,
    pub method: Option<String>,
    pub params: Option<serde_json::Value>,
    pub result: Option<serde_json::Value>,
    pub error: Option<ProtocolError>,
}

/// Protocol error structure.
#[derive(Debug, Clone)]
pub struct ProtocolError {
    pub code: i64,
    pub message: String,
    pub data: Option<serde_json::Value>,
}

/// The protocol version that every message carries.
pub open spec fn jsonrpc_version() -> Seq<char> {
    "2.0"@
}

/// The view of an optional text.
pub open spec fn opt_text(o: Option<String>) -> Option<Seq<char>> {
    match o {
        Some(s) => Some(s@),
        None => None,
    }
}

/// `m` is a request (a notification when `id` is `None`) for `method` with `params`.
pub open spec fn is_request(m: ProtocolMessage, id: Option<u64>, method: Seq<char>, params: Option<serde_json::Value>) -> bool {
    &&& m.id == id
    &&& m.jsonrpc@ == jsonrpc_version()
    &&& opt_text(m.method) == Some(method)
    &&& m.params == params
    &&& m.result is None
    &&& m.error is None
}

/// `m` is the response to request `id` carrying `result`.
pub open spec fn is_response(m: ProtocolMessage, id: u64, result: serde_json::Value) -> bool {
    &&& m.id == Some(id)
    &&& m.jsonrpc@ == jsonrpc_version()
    &&& m.method is None
    &&& m.params is None
    &&& m.result == Some(result)
    &&& m.error is None
}

/// `m` is the error response to request `id` with `code` and `message`.
pub open spec fn is_error_response(m: ProtocolMessage, id: u64, code: i64, message: Seq<char>) -> bool {
    &&& m.id == Some(id)
    &&& m.jsonrpc@ == jsonrpc_version()
    &&& m.method is None
    &&& m.params is None
    &&& m.result is None
    &&& m.error matches Some(e) && e.code == code && e.message@ == message && e.data is None
}

/// Create a protocol request message.
pub fn create_request(id: u64, method: &str, params: Option<serde_json::Value>) -> (m: ProtocolMessage)
    ensures
        is_request(m, Some(id), method@, params),
{
    ProtocolMessage {
        id: Some(id),
        jsonrpc: String::from_str("2.0"),
        method: Some(method.to_owned()),
        params,
        result: None,
        error: None,
    }
}

/// Create a protocol response message.
pub fn create_response(id: u64, result: serde_json::Value) -> (m: ProtocolMessage)
    ensures
        is_response(m, id, result),
{
    ProtocolMessage {
        id: Some(id),
        jsonrpc: String::from_str("2.0"),
        method: None,
        params: None,
        result: Some(result),
        error: None,
    }
}

/// Create a protocol error message.
pub fn create_error(id: u64, code: i64, message: &str) -> (m: ProtocolMessage)
    ensures
        is_error_response(m, id, code, message@),
{
    ProtocolMessage {
        id: Some(id),
        jsonrpc: String::from_str("2.0"),
        method: None,
        params: None,
        result: None,
        error: Some(ProtocolError { code, message: message.to_owned(), data: None }),
    }
}

/// Create a notification message (no ID required).
pub fn create_notification(method: &str, params: Option<serde_json::Value>) -> (m: ProtocolMessage)
    ensures
        is_request(m, None, method@, params),
{
    ProtocolMessage {
        id: None,
        jsonrpc: String::from_str("2.0"),
        method: Some(method.to_owned()),
        params,
        result: None,
        error: None,
    }
}

} // verus!
