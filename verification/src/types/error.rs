//! Error types and the abort check.

use vstd::prelude::*;
use vstd::string::StringExecFns;

verus! {

broadcast use vstd::string::group_string_axioms;

/// Represents errors that can occur during SDK operations.
#[derive(Debug, Clone)]
pub enum SDKError {
    Transport(String),
    Session(String),
    InvalidConfig(String),
    Mcp(String),
    ToolExecution(String),
    /// Any other failure, carried by its message.
    Other(String),
}

/// The text that describes an `SDKError`.
pub open spec fn sdk_error_text(e: SDKError) -> Seq<char> {
    match e {
        SDKError::Transport(s) => "Transport error: "@ + s@,
        SDKError::Session(s) => "Session error: "@ + s@,
        SDKError::InvalidConfig(s) => "Invalid configuration: "@ + s@,
        SDKError::Mcp(s) => "MCP error: "@ + s@,
        SDKError::ToolExecution(s) => "Tool execution error: "@ + s@,
        SDKError::Other(s) => s@,
    }
}

impl SDKError {
    /// The human-readable description of the error.
    pub fn error_message(&self) -> (t: String)
        ensures
            t@ == sdk_error_text(*self),
    {
        match self {
            SDKError::Transport(s) => String::from_str("Transport error: ").concat(s.as_str()),
            SDKError::Session(s) => String::from_str("Session error: ").concat(s.as_str()),
            SDKError::InvalidConfig(s) => String::from_str("Invalid configuration: ").concat(s.as_str()),
            SDKError::Mcp(s) => String::from_str("MCP error: ").concat(s.as_str()),
            SDKError::ToolExecution(s) => String::from_str("Tool execution error: ").concat(s.as_str()),
            SDKError::Other(s) => s.clone(),
        }
    }
}

/// Error returned when an operation is aborted.
#[derive(Debug, Clone, Copy)]
pub struct AbortError;

impl AbortError {
    pub fn new() -> (e: Self)
        ensures
            e == AbortError,
    {
        AbortError
    }

    /// The human-readable description of the error.
    pub fn error_message(&self) -> (t: String)
        ensures
            t@ == "Operation was aborted"@,
    {
        String::from_str("Operation was aborted")
    }
}

/// All abort errors are equal.
impl PartialEq for AbortError {
    fn eq(&self, other: &Self) -> (r: bool) {
        true
    }
}

impl vstd::std_specs::cmp::PartialEqSpecImpl for AbortError {
    open spec fn obeys_eq_spec() -> bool {
        true
    }

    open spec fn eq_spec(&self, other: &Self) -> bool {
        true
    }
}

/// An error of any kind that the library reports: an abort, an SDK error, or
/// a plain message.
#[derive(Debug, Clone)]
pub enum QwenError {
    Aborted(AbortError),
    Sdk(SDKError),
    Message(String),
}

/// The text that describes a `QwenError`.
pub open spec fn qwen_error_text(e: QwenError) -> Seq<char> {
    match e {
        QwenError::Aborted(_) => "Operation was aborted"@,
        QwenError::Sdk(s) => sdk_error_text(s),
        QwenError::Message(m) => m@,
    }
}

impl QwenError {
    /// The human-readable description of the error.
    pub fn error_message(&self) -> (t: String)
        ensures
            t@ == qwen_error_text(*self),
    {
        match self {
            QwenError::Aborted(a) => a.error_message(),
            QwenError::Sdk(e) => e.error_message(),
            QwenError::Message(m) => m.clone(),
        }
    }
}

/// Check if an error is an abort error.
pub fn is_abort_error(err: &QwenError) -> (b: bool)
    ensures
        b == (*err is Aborted),
{
    matches!(err, QwenError::Aborted(_))
}

} // verus!
