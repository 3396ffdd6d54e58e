use qwencode_rs::types::message::{
    MessageContent, MessageRole, MessageType, SDKAssistantMessage, SDKMessage, SDKMessageBase,
    SDKPartialAssistantMessage, SDKResultMessage, SDKSystemMessage, SDKUserMessage,
};

fn json(text: &str) -> serde_json::Value {
    serde_json::from_str(text).unwrap()
}

#[test]
fn test_user_message_creation() {
    let msg = SDKUserMessage {
        session_id: "test-session".to_string(),
        message: MessageContent { role: MessageRole::User, content: "Hello".to_string() },
        parent_tool_use_id: None,
    };

    assert_eq!(msg.session_id(), "test-session");
    assert_eq!(msg.message_type(), MessageType::User);

    let wrapped = SDKMessage::User(msg.clone());
    assert!(wrapped.is_user_message());
}

#[test]
fn test_assistant_message_creation() {
    let msg = SDKAssistantMessage {
        session_id: "test-session".to_string(),
        message: MessageContent { role: MessageRole::Assistant, content: "Hi there!".to_string() },
    };

    assert_eq!(msg.session_id(), "test-session");
    assert_eq!(msg.message_type(), MessageType::Assistant);

    let wrapped = SDKMessage::Assistant(msg.clone());
    assert!(wrapped.is_assistant_message());
}

#[test]
fn test_system_message_creation() {
    let msg = SDKSystemMessage {
        session_id: "test-session".to_string(),
        message: MessageContent { role: MessageRole::System, content: "System initialized".to_string() },
    };

    assert_eq!(msg.session_id(), "test-session");
    assert_eq!(msg.message_type(), MessageType::System);

    let wrapped = SDKMessage::System(msg.clone());
    assert!(wrapped.is_system_message());
}

#[test]
fn test_result_message_creation() {
    let msg = SDKResultMessage {
        session_id: "test-session".to_string(),
        result: json(r#"{"status": "success"}"#),
        exit_code: 0,
    };

    assert_eq!(msg.session_id(), "test-session");
    assert_eq!(msg.message_type(), MessageType::Result);

    let wrapped = SDKMessage::Result(msg.clone());
    assert!(wrapped.is_result_message());
}

#[test]
fn test_partial_assistant_message_creation() {
    let msg = SDKPartialAssistantMessage {
        session_id: "test-session".to_string(),
        message: MessageContent { role: MessageRole::Assistant, content: "Partial...".to_string() },
        is_complete: false,
    };

    assert_eq!(msg.session_id(), "test-session");
    assert_eq!(msg.message_type(), MessageType::PartialAssistant);

    let wrapped = SDKMessage::PartialAssistant(msg.clone());
    assert!(wrapped.is_partial_assistant_message());
}

#[test]
fn test_sdk_message_enum_user() {
    let user_msg = SDKUserMessage {
        session_id: "s1".to_string(),
        message: MessageContent { role: MessageRole::User, content: "test".to_string() },
        parent_tool_use_id: None,
    };

    let msg = SDKMessage::User(user_msg);
    assert!(msg.is_user_message());
    assert_eq!(msg.session_id(), "s1");
}

#[test]
fn test_sdk_message_enum_assistant() {
    let assistant_msg = SDKAssistantMessage {
        session_id: "s2".to_string(),
        message: MessageContent { role: MessageRole::Assistant, content: "response".to_string() },
    };

    let msg = SDKMessage::Assistant(assistant_msg);
    assert!(msg.is_assistant_message());
    assert_eq!(msg.session_id(), "s2");
}

#[test]
fn test_type_guards_all_return_false_for_wrong_type() {
    let msg = SDKMessage::User(SDKUserMessage {
        session_id: "s1".to_string(),
        message: MessageContent { role: MessageRole::User, content: "test".to_string() },
        parent_tool_use_id: None,
    });

    assert!(!msg.is_assistant_message());
    assert!(!msg.is_system_message());
    assert!(!msg.is_result_message());
    assert!(!msg.is_partial_assistant_message());
}

#[test]
fn test_message_debug_format() {
    let msg = SDKUserMessage {
        session_id: "debug-session".to_string(),
        message: MessageContent { role: MessageRole::User, content: "Debug test".to_string() },
        parent_tool_use_id: None,
    };

    let debug_str = format!("{:?}", msg);
    assert!(debug_str.contains("debug-session"));
    assert!(debug_str.contains("Debug test"));
}

#[test]
fn message_type_matches_the_one_guard_that_holds() {
    let content = MessageContent { role: MessageRole::System, content: "x".to_string() };
    let messages = vec![
        SDKMessage::User(SDKUserMessage { session_id: "a".to_string(), message: content.clone(), parent_tool_use_id: None }),
        SDKMessage::Assistant(SDKAssistantMessage { session_id: "b".to_string(), message: content.clone() }),
        SDKMessage::System(SDKSystemMessage { session_id: "c".to_string(), message: content.clone() }),
        SDKMessage::Result(SDKResultMessage { session_id: "d".to_string(), result: json("1"), exit_code: 3 }),
        SDKMessage::PartialAssistant(SDKPartialAssistantMessage { session_id: "e".to_string(), message: content, is_complete: true }),
    ];
    let kinds = [MessageType::User, MessageType::Assistant, MessageType::System, MessageType::Result, MessageType::PartialAssistant];
    let ids = ["a", "b", "c", "d", "e"];
    for (i, m) in messages.iter().enumerate() {
        let guards = [
            m.is_user_message(),
            m.is_assistant_message(),
            m.is_system_message(),
            m.is_result_message(),
            m.is_partial_assistant_message(),
        ];
        assert_eq!(guards.iter().filter(|g| **g).count(), 1);
        assert!(guards[i]);
        assert_eq!(m.message_type(), kinds[i]);
        assert_eq!(m.session_id(), ids[i]);
    }
}

#[test]
fn from_assistant_text_builds_an_assistant_message() {
    let m = SDKMessage::from_assistant_text("hi");
    match m {
        SDKMessage::Assistant(a) => {
            assert_eq!(a.session_id, "");
            assert_eq!(a.message.role, MessageRole::Assistant);
            assert_eq!(a.message.content, "hi");
        }
        _ => panic!("expected an assistant message"),
    }
}

#[test]
fn from_result_value_builds_a_result_message() {
    let m = SDKMessage::from_result_value(json(r#"{"k": [1, 2]}"#));
    match m {
        SDKMessage::Result(r) => {
            assert_eq!(r.session_id, "");
            assert_eq!(r.exit_code, 0);
            assert_eq!(r.result, json(r#"{"k": [1, 2]}"#));
        }
        _ => panic!("expected a result message"),
    }
}
