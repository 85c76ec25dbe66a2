//! Conversation data model: message roles, message parts and per-conversation
//! options.

use vstd::prelude::*;

verus! {

/// Status of the AI model.
#[derive(Clone, Copy, Debug, PartialEq, Eq, Structural)]
pub enum ModelStatus {
    Idle,
    ModelLoading,
    ConversationLoading,
    Ready,
}

/// Role of a message in a conversation.
#[derive(Clone, Copy, Debug, PartialEq, Eq, Structural)]
pub enum MessageRole {
    Assistant,
    User,
    System,
}

/// Type of message part.
#[derive(Clone, Copy, Debug, PartialEq, Eq, Structural)]
pub enum MessagePartType {
    Text,
    ToolCall,
}

/// Base message part.
#[derive(Debug, Clone)]
pub struct MessagePartBase {
    pub id: String,
    pub part_type: MessagePartType,
}

/// Text message part.
#[derive(Debug, Clone)]
pub struct MessagePartText {
    pub base: MessagePartBase,
    pub text: String,
}

/// Response media for tool calls.
#[derive(Debug, Clone)]
pub struct ResponseMedia {
    pub media_type: String,
    pub data: String,
    pub mime_type: String,
}

/// Tool call message part.
#[derive(Debug, Clone)]
pub struct MessagePartTool {
    pub base: MessagePartBase,
    pub function_name: String,
    pub parameters: serde_json::Value,
    pub response: String,
    pub response_media: Option<ResponseMedia>,
}

/// Message part: either plain text or a tool call.
#[derive(Debug, Clone)]
pub enum MessagePart {
    Text(MessagePartText),
    ToolCall(MessagePartTool),
}

/// Message in a conversation.
#[derive(Debug, Clone)]
pub struct Message {
    pub id: String,
    pub role: MessageRole,
    pub message_parts: Vec<MessagePart>,
}

/// Holds when `p` is a text part carrying exactly `text`.
pub open spec fn spec_is_text_part(p: MessagePart, text: Seq<char>) -> bool {
    &&& p matches MessagePart::Text(t)
    &&& t.text@ == text
    &&& t.base.part_type == MessagePartType::Text
}

/// Relies on uuid::Uuid::new_v4 and its Display impl: a random v4 UUID
/// rendered in the 36-character hyphenated form.
#[verifier::external_body]
fn fresh_uuid_string() -> (r: String)
    ensures
        r@.len() == 36,
{
    uuid::Uuid::new_v4().to_string()
}

impl Message {
    /// Create a new user message.
    pub fn user(text: String) -> (r: Message)
        ensures
            r.role == MessageRole::User,
            r.message_parts.len() == 1,
            spec_is_text_part(r.message_parts[0], text@),
    {
        let mut parts: Vec<MessagePart> = Vec::new();
        parts.push(MessagePart::Text(MessagePartText {
            base: MessagePartBase { id: fresh_uuid_string(), part_type: MessagePartType::Text },
            text,
        }));
        Message { id: fresh_uuid_string(), role: MessageRole::User, message_parts: parts }
    }

    /// Create a new assistant message.
    pub fn assistant(text: String) -> (r: Message)
        ensures
            r.role == MessageRole::Assistant,
            r.message_parts.len() == 1,
            spec_is_text_part(r.message_parts[0], text@),
    {
        let mut parts: Vec<MessagePart> = Vec::new();
        parts.push(MessagePart::Text(MessagePartText {
            base: MessagePartBase { id: fresh_uuid_string(), part_type: MessagePartType::Text },
            text,
        }));
        Message { id: fresh_uuid_string(), role: MessageRole::Assistant, message_parts: parts }
    }

    /// Create a new system message.
    pub fn system(text: String) -> (r: Message)
        ensures
            r.role == MessageRole::System,
            r.message_parts.len() == 1,
            spec_is_text_part(r.message_parts[0], text@),
    {
        let mut parts: Vec<MessagePart> = Vec::new();
        parts.push(MessagePart::Text(MessagePartText {
            base: MessagePartBase { id: fresh_uuid_string(), part_type: MessagePartType::Text },
            text,
        }));
        Message { id: fresh_uuid_string(), role: MessageRole::System, message_parts: parts }
    }
}

/// Configuration options for a conversation.
#[derive(Debug, Clone)]
pub struct ConversationOptions {
    pub log_enabled: bool,
    pub conversation_end_keyword: Option<String>,
}

impl Default for ConversationOptions {
    /// Logging on, with the standard end-of-conversation keyword.
    fn default() -> (r: Self)
        ensures
            r.log_enabled == true,
            r.conversation_end_keyword matches Some(k) && k@ == "CONVERSATION_ENDED"@,
    {
        ConversationOptions {
            log_enabled: true,
            conversation_end_keyword: Some("CONVERSATION_ENDED".to_owned()),
        }
    }
}

} // verus!
