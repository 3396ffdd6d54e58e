//! Requests sent to the agent process and the conversion of what it answers
//! into SDK messages.

use vstd::prelude::*;
use vstd::string::StringExecFns;

use crate::json::{json_text_field, text_field};
use crate::transport::protocol::{is_error_response, is_request, is_response, opt_text, ProtocolMessage};
use crate::types::config::QueryOptions;
use crate::types::error::QwenError;
use crate::types::message::{MessageRole, SDKMessage};
use crate::utils::text::str_eq;

verus! {

broadcast use vstd::string::group_string_axioms;

/// Request to send to the CLI process.
#[derive(Debug, Clone)]
pub struct CLIRequest {
    /// Request type.
    pub request_type: String,
    /// Prompt text.
    pub prompt: String,
    /// Session ID.
    pub session_id: Option<String>,
    /// Query options.
    pub options: QueryOptions,
}

impl CLIRequest {
    /// The request that asks the agent to answer `prompt` under `options`, in
    /// the session that the options name.
    pub fn query(prompt: &str, options: QueryOptions) -> (r: CLIRequest)
        ensures
            r.request_type@ == "query"@,
            r.prompt@ == prompt@,
            r.session_id == options.session_id,
            r.options == options,
    {
        let session_id = options.session_id.clone();
        CLIRequest { request_type: String::from_str("query"), prompt: prompt.to_owned(), session_id, options }
    }
}

/// Initialize request.
#[derive(Debug, Clone)]
pub struct InitializeRequest {
    pub protocol_version: String,
    pub client: String,
    pub client_version: String,
}

impl InitializeRequest {
    /// The handshake that this client sends: protocol version "1.0", client
    /// "qwencode-rs", and the given client version.
    pub fn for_client_version(client_version: &str) -> (r: InitializeRequest)
        ensures
            r.protocol_version@ == "1.0"@,
            r.client@ == "qwencode-rs"@,
            r.client_version@ == client_version@,
    {
        InitializeRequest {
            protocol_version: String::from_str("1.0"),
            client: String::from_str("qwencode-rs"),
            client_version: client_version.to_owned(),
        }
    }
}

/// What ended the wait for the agent's reply to the handshake.
pub enum HandshakeEvent {
    /// The handshake was cancelled.
    Cancelled,
    /// A read of the reply line finished, with this many bytes read.
    Read(usize),
}

/// Whether the handshake goes on to parse the reply line: it does when a
/// line was read; a cancellation fails with "Initialize cancelled", and an
/// output that ended before any reply with "CLI process exited before responding".
pub fn handshake_step(event: HandshakeEvent) -> (r: Result<(), QwenError>)
    ensures
        event is Cancelled ==> (r matches Err(QwenError::Message(m)) && m@ == "Initialize cancelled"@),
        event matches HandshakeEvent::Read(n) ==> (n == 0 <==> r is Err),
        event matches HandshakeEvent::Read(n) && n == 0
            ==> (r matches Err(QwenError::Message(m)) && m@ == "CLI process exited before responding"@),
{
    match event {
        HandshakeEvent::Cancelled => Err(QwenError::Message(String::from_str("Initialize cancelled"))),
        HandshakeEvent::Read(n) => {
            if n == 0 {
                Err(QwenError::Message(String::from_str("CLI process exited before responding")))
            } else {
                Ok(())
            }
        },
    }
}

/// Initialize response from the CLI.
#[derive(Debug, Clone)]
pub struct InitializeResponse {
    pub protocol_version: String,
    pub capabilities: CLICapabilities,
}

/// CLI capabilities.
#[derive(Debug, Clone, Copy)]
pub struct CLICapabilities {
    pub streaming: bool,
    pub tool_use: bool,
    pub multi_turn: bool,
}

/// What converting a protocol message gives, when an assistant message carries
/// `assistant_text`:
/// - method `assistant_message` with parameters: an assistant message with that text;
/// - method `result` with parameters: a result message carrying the parameters;
/// - method `error` with an error: the error "CLI error: " followed by its message;
/// - otherwise, a response with a result: a result message carrying it;
/// - otherwise nothing.
/// Result and assistant messages are outside any known session (empty
/// session identifier); result messages have exit code 0.
pub open spec fn converts_to(m: ProtocolMessage, assistant_text: Seq<char>, r: Result<Option<SDKMessage>, QwenError>) -> bool {
    let method = opt_text(m.method);
    if method == Some("assistant_message"@) && m.params is Some {
        r matches Ok(Some(SDKMessage::Assistant(a))) && a.session_id@ == Seq::<char>::empty()
            && a.message.role == MessageRole::Assistant && a.message.content@ == assistant_text
    } else if method == Some("result"@) && m.params is Some {
        r matches Ok(Some(SDKMessage::Result(x))) && x.session_id@ == Seq::<char>::empty()
            && x.result == m.params->0 && x.exit_code == 0
    } else if method == Some("error"@) && m.error is Some {
        r matches Err(QwenError::Message(t)) && t@ == "CLI error: "@ + m.error->0.message@
    } else if m.result is Some {
        r matches Ok(Some(SDKMessage::Result(x))) && x.session_id@ == Seq::<char>::empty()
            && x.result == m.result->0 && x.exit_code == 0
    } else {
        r matches Ok(None)
    }
}

/// The text that an assistant message's parameters carry under "content".
pub open spec fn assistant_content(m: ProtocolMessage) -> Seq<char> {
    match m.params {
        Some(p) => json_text_field(p, "content"@),
        None => Seq::empty(),
    }
}

/// Convert a protocol message to an SDK message, given the text that an
/// assistant message carries.
pub fn convert_protocol_message(message: &ProtocolMessage, assistant_text: &str) -> (r: Result<Option<SDKMessage>, QwenError>)
    ensures
        converts_to(*message, assistant_text@, r),
{
    proof {
        reveal_strlit("assistant_message");
        reveal_strlit("result");
        reveal_strlit("error");
        assert("assistant_message"@[0] == 'a' && "result"@[0] == 'r' && "error"@[0] == 'e');
        assert("assistant_message"@ != "result"@);
        assert("assistant_message"@ != "error"@);
        assert("result"@ != "error"@);
    }
    if let Some(method) = &message.method {
        let method = method.as_str();
        if str_eq(method, "assistant_message") {
            if message.params.is_some() {
                return Ok(Some(SDKMessage::from_assistant_text(assistant_text)));
            }
        } else if str_eq(method, "result") {
            if let Some(params) = &message.params {
                return Ok(Some(SDKMessage::from_result_value(params.clone())));
            }
        } else if str_eq(method, "error") {
            if let Some(error) = &message.error {
                return Err(QwenError::Message(String::from_str("CLI error: ").concat(error.message.as_str())));
            }
        }
    }
    if let Some(result) = &message.result {
        return Ok(Some(SDKMessage::from_result_value(result.clone())));
    }
    Ok(None)
}

/// Convert a ProtocolMessage to an SDKMessage; an assistant message takes its
/// text from the "content" member of the parameters ("" when there is none).
pub fn protocol_to_sdk_message(message: &ProtocolMessage) -> (r: Result<Option<SDKMessage>, QwenError>)
    ensures
        converts_to(*message, assistant_content(*message), r),
{
    let content = match &message.params {
        Some(params) => text_field(params, "content"),
        None => String::new(),
    };
    convert_protocol_message(message, content.as_str())
}


/// A response made by `create_response` reads back as a result message
/// carrying the same value.
pub proof fn lemma_response_reads_back_as_result(
    m: ProtocolMessage,
    id: u64,
    value: serde_json::Value,
    text: Seq<char>,
    r: Result<Option<SDKMessage>, QwenError>,
)
    requires
        is_response(m, id, value),
        converts_to(m, text, r),
    ensures
        r matches Ok(Some(SDKMessage::Result(x))) && x.result == value && x.exit_code == 0,
{
}

/// A notification or request for `assistant_message` with parameters reads
/// back as an assistant message with the text those parameters carry.
pub proof fn lemma_assistant_notification_reads_back(
    m: ProtocolMessage,
    id: Option<u64>,
    params: serde_json::Value,
    r: Result<Option<SDKMessage>, QwenError>,
)
    requires
        is_request(m, id, "assistant_message"@, Some(params)),
        converts_to(m, assistant_content(m), r),
    ensures
        r matches Ok(Some(SDKMessage::Assistant(a))) && a.message.content@ == json_text_field(params, "content"@),
{
}

/// A notification or request for `result` with parameters reads back as a
/// result message carrying them.
pub proof fn lemma_result_notification_reads_back(
    m: ProtocolMessage,
    id: Option<u64>,
    params: serde_json::Value,
    text: Seq<char>,
    r: Result<Option<SDKMessage>, QwenError>,
)
    requires
        is_request(m, id, "result"@, Some(params)),
        converts_to(m, text, r),
    ensures
        r matches Ok(Some(SDKMessage::Result(x))) && x.result == params,
{
    reveal_strlit("result");
    reveal_strlit("assistant_message");
    assert("result"@[0] != "assistant_message"@[0]);
}

/// An error response made by `create_error` has no method, so it is not
/// turned into an error: it gives no message at all.
pub proof fn lemma_error_response_gives_nothing(
    m: ProtocolMessage,
    id: u64,
    code: i64,
    message: Seq<char>,
    text: Seq<char>,
    r: Result<Option<SDKMessage>, QwenError>,
)
    requires
        is_error_response(m, id, code, message),
        converts_to(m, text, r),
    ensures
        r matches Ok(None),
{
}

} // verus!
