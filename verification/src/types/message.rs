//! The messages exchanged with the agent, and their type guards.

use vstd::prelude::*;

verus! {

broadcast use vstd::string::group_string_axioms;

/// Represents a role in the conversation.
#[derive(Debug, Clone, Copy, PartialEq, Eq, Structural)]
pub enum MessageRole {
    User,
    Assistant,
    System,
}

/// A single message content.
#[derive(Debug, Clone)]
pub struct MessageContent {
    pub role: MessageRole,
    pub content: String,
}

/// Types of SDK messages.
#[derive(Debug, Clone, Copy, PartialEq, Eq, Structural)]
pub enum MessageType {
    User,
    Assistant,
    System,
    Result,
    PartialAssistant,
}

/// What every SDK message offers: its session and its type.
pub trait SDKMessageBase {
    fn session_id(&self) -> &str;

    fn message_type(&self) -> MessageType;
}

/// User message sent to QwenCode.
#[derive(Debug, Clone)]
pub struct SDKUserMessage {
    pub session_id: String,
    pub message: MessageContent,
    pub parent_tool_use_id: Option<String>,
}

/// Assistant message from QwenCode.
#[derive(Debug, Clone)]
pub struct SDKAssistantMessage {
    pub session_id: String,
    pub message: MessageContent,
}

/// System message.
#[derive(Debug, Clone)]
pub struct SDKSystemMessage {
    pub session_id: String,
    pub message: MessageContent,
}

/// Result message when a query completes.
#[derive(Debug, Clone)]
pub struct SDKResultMessage {
    pub session_id: String,
    pub result: serde_json::Value,
    pub exit_code: i32,
}

/// Partial assistant message for streaming.
#[derive(Debug, Clone)]
pub struct SDKPartialAssistantMessage {
    pub session_id: String,
    pub message: MessageContent,
    pub is_complete: bool,
}

impl SDKMessageBase for SDKUserMessage {
    fn session_id(&self) -> (s: &str)
        ensures
            s@ == self.session_id@,
    {
        self.session_id.as_str()
    }

    fn message_type(&self) -> (t: MessageType)
        ensures
            t == MessageType::User,
    {
        MessageType::User
    }
}

impl SDKMessageBase for SDKAssistantMessage {
    fn session_id(&self) -> (s: &str)
        ensures
            s@ == self.session_id@,
    {
        self.session_id.as_str()
    }

    fn message_type(&self) -> (t: MessageType)
        ensures
            t == MessageType::Assistant,
    {
        MessageType::Assistant
    }
}

impl SDKMessageBase for SDKSystemMessage {
    fn session_id(&self) -> (s: &str)
        ensures
            s@ == self.session_id@,
    {
        self.session_id.as_str()
    }

    fn message_type(&self) -> (t: MessageType)
        ensures
            t == MessageType::System,
    {
        MessageType::System
    }
}

impl SDKMessageBase for SDKResultMessage {
    fn session_id(&self) -> (s: &str)
        ensures
            s@ == self.session_id@,
    {
        self.session_id.as_str()
    }

    fn message_type(&self) -> (t: MessageType)
        ensures
            t == MessageType::Result,
    {
        MessageType::Result
    }
}

impl SDKMessageBase for SDKPartialAssistantMessage {
    fn session_id(&self) -> (s: &str)
        ensures
            s@ == self.session_id@,
    {
        self.session_id.as_str()
    }

    fn message_type(&self) -> (t: MessageType)
        ensures
            t == MessageType::PartialAssistant,
    {
        MessageType::PartialAssistant
    }
}

/// Enum wrapping all message types.
#[derive(Debug, Clone)]
pub enum SDKMessage {
    User(SDKUserMessage),
    Assistant(SDKAssistantMessage),
    System(SDKSystemMessage),
    Result(SDKResultMessage),
    PartialAssistant(SDKPartialAssistantMessage),
}

/// The session that a message belongs to.
pub open spec fn message_session(m: SDKMessage) -> Seq<char> {
    match m {
        SDKMessage::User(x) => x.session_id@,
        SDKMessage::Assistant(x) => x.session_id@,
        SDKMessage::System(x) => x.session_id@,
        SDKMessage::Result(x) => x.session_id@,
        SDKMessage::PartialAssistant(x) => x.session_id@,
    }
}

/// The type that corresponds to a message's variant.
pub open spec fn message_kind(m: SDKMessage) -> MessageType {
    match m {
        SDKMessage::User(_) => MessageType::User,
        SDKMessage::Assistant(_) => MessageType::Assistant,
        SDKMessage::System(_) => MessageType::System,
        SDKMessage::Result(_) => MessageType::Result,
        SDKMessage::PartialAssistant(_) => MessageType::PartialAssistant,
    }
}

impl SDKMessage {
    pub fn session_id(&self) -> (s: &str)
        ensures
            s@ == message_session(*self),
    {
        match self {
            SDKMessage::User(m) => m.session_id.as_str(),
            SDKMessage::Assistant(m) => m.session_id.as_str(),
            SDKMessage::System(m) => m.session_id.as_str(),
            SDKMessage::Result(m) => m.session_id.as_str(),
            SDKMessage::PartialAssistant(m) => m.session_id.as_str(),
        }
    }

    pub fn message_type(&self) -> (t: MessageType)
        ensures
            t == message_kind(*self),
    {
        match self {
            SDKMessage::User(_) => MessageType::User,
            SDKMessage::Assistant(_) => MessageType::Assistant,
            SDKMessage::System(_) => MessageType::System,
            SDKMessage::Result(_) => MessageType::Result,
            SDKMessage::PartialAssistant(_) => MessageType::PartialAssistant,
        }
    }

    pub fn is_user_message(&self) -> (b: bool)
        ensures
            b == (*self is User),
    {
        matches!(self, SDKMessage::User(_))
    }

    pub fn is_assistant_message(&self) -> (b: bool)
        ensures
            b == (*self is Assistant),
    {
        matches!(self, SDKMessage::Assistant(_))
    }

    pub fn is_system_message(&self) -> (b: bool)
        ensures
            b == (*self is System),
    {
        matches!(self, SDKMessage::System(_))
    }

    pub fn is_result_message(&self) -> (b: bool)
        ensures
            b == (*self is Result),
    {
        matches!(self, SDKMessage::Result(_))
    }

    pub fn is_partial_assistant_message(&self) -> (b: bool)
        ensures
            b == (*self is PartialAssistant),
    {
        matches!(self, SDKMessage::PartialAssistant(_))
    }

    /// An assistant message with the given text, outside any known session
    /// (its session identifier is empty).
    pub fn from_assistant_text(text: &str) -> (m: SDKMessage)
        ensures
            m matches SDKMessage::Assistant(a) && a.session_id@ == Seq::<char>::empty()
                && a.message.role == MessageRole::Assistant && a.message.content@ == text@,
    {
        SDKMessage::Assistant(SDKAssistantMessage {
            session_id: String::new(),
            message: MessageContent { role: MessageRole::Assistant, content: text.to_owned() },
        })
    }

    /// A result message carrying `value`, with exit code 0, outside any known
    /// session (its session identifier is empty).
    pub fn from_result_value(value: serde_json::Value) -> (m: SDKMessage)
        ensures
            m matches SDKMessage::Result(r) && r.session_id@ == Seq::<char>::empty()
                && r.result == value && r.exit_code == 0,
    {
        SDKMessage::Result(SDKResultMessage { session_id: String::new(), result: value, exit_code: 0 })
    }
}

/// Exactly one type guard holds of every message, and it is the one that
/// `message_type` names.
pub proof fn lemma_one_type_guard_holds(m: SDKMessage)
    ensures
        (m is User) <==> message_kind(m) == MessageType::User,
        (m is Assistant) <==> message_kind(m) == MessageType::Assistant,
        (m is System) <==> message_kind(m) == MessageType::System,
        (m is Result) <==> message_kind(m) == MessageType::Result,
        (m is PartialAssistant) <==> message_kind(m) == MessageType::PartialAssistant,
        (m is User) as int + (m is Assistant) as int + (m is System) as int + (m is Result) as int
            + (m is PartialAssistant) as int == 1,
{
}

} // verus!
