//! Tests for the conversation data model.

use jarvis::types::ConversationOptions;
use jarvis::types::Message;
use jarvis::types::MessagePart;
use jarvis::types::MessagePartType;
use jarvis::types::MessageRole;

fn text_of(message: &Message) -> &str {
    assert_eq!(message.message_parts.len(), 1);
    match &message.message_parts[0] {
        MessagePart::Text(t) => {
            assert_eq!(t.base.part_type, MessagePartType::Text);
            &t.text
        }
        MessagePart::ToolCall(_) => panic!("expected a text part"),
    }
}

#[test]
fn user_message() {
    let m = Message::user("hello".to_string());
    assert_eq!(m.role, MessageRole::User);
    assert_eq!(text_of(&m), "hello");
    // Ids are hyphenated UUIDs, fresh per message.
    assert_eq!(m.id.len(), 36);
    let other = Message::user("hello".to_string());
    assert_ne!(m.id, other.id);
}

#[test]
fn assistant_message() {
    let m = Message::assistant("at your service".to_string());
    assert_eq!(m.role, MessageRole::Assistant);
    assert_eq!(text_of(&m), "at your service");
}

#[test]
fn system_message() {
    let m = Message::system("boot".to_string());
    assert_eq!(m.role, MessageRole::System);
    assert_eq!(text_of(&m), "boot");
}

#[test]
fn conversation_options_default() {
    let options = ConversationOptions::default();
    assert!(options.log_enabled);
    assert_eq!(
        options.conversation_end_keyword,
        Some("CONVERSATION_ENDED".to_string())
    );
}
