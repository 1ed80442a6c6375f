//! The agent runtime's message model, as the embed layer produces it:
//! content blocks, user content, stop reasons and messages.

use vstd::prelude::*;

verus! {

/// Reasoning effort requested from a model.
#[derive(Debug, Clone, Copy, PartialEq, Eq, Structural)]
pub enum ThinkingLevel {
    Off,
    Minimal,
    Low,
    Medium,
    High,
    XHigh,
}

/// Delivery mode for queued steering and follow-up messages.
#[derive(Debug, Clone, Copy, PartialEq, Eq, Structural)]
pub enum QueueMode {
    /// Deliver every queued message at once.
    All,
    /// Deliver queued messages one at a time.
    OneAtATime,
}

/// Why an assistant message stopped.
#[derive(Debug, Clone, Copy, PartialEq, Eq, Structural)]
pub enum StopReason {
    Stop,
    Length,
    ToolUse,
    Error,
    Aborted,
}

/// A content block of a message.
#[derive(Debug, Clone, PartialEq)]
pub enum ContentBlock {
    /// Plain text.
    Text { text: String },
    /// An inline image, its bytes in standard base64.
    Image { data: String, mime_type: String },
    /// Reasoning content.
    Thinking { thinking: String },
    /// A tool call requested by the assistant.
    ToolCall { id: String, name: String, arguments: serde_json::Value },
}

/// The mathematical value of a content block.
pub enum ContentBlockView {
    Text { text: Seq<char> },
    Image { data: Seq<char>, mime_type: Seq<char> },
    Thinking { thinking: Seq<char> },
    ToolCall { id: Seq<char>, name: Seq<char>, arguments: serde_json::Value },
}

impl View for ContentBlock {
    type V = ContentBlockView;

    open spec fn view(&self) -> ContentBlockView {
        match self {
            ContentBlock::Text { text } => ContentBlockView::Text { text: text@ },
            ContentBlock::Image { data, mime_type } => ContentBlockView::Image {
                data: data@,
                mime_type: mime_type@,
            },
            ContentBlock::Thinking { thinking } => ContentBlockView::Thinking {
                thinking: thinking@,
            },
            ContentBlock::ToolCall { id, name, arguments } => ContentBlockView::ToolCall {
                id: id@,
                name: name@,
                arguments: *arguments,
            },
        }
    }
}

/// The views of a sequence of content blocks.
pub open spec fn blocks_view(blocks: Seq<ContentBlock>) -> Seq<ContentBlockView> {
    blocks.map_values(|b: ContentBlock| b@)
}

/// The content of a user message.
#[derive(Debug, Clone, PartialEq)]
pub enum UserContent {
    /// A single text.
    Text(String),
    /// Structured blocks.
    Blocks(Vec<ContentBlock>),
}

/// The mathematical value of user content.
pub enum UserContentView {
    Text(Seq<char>),
    Blocks(Seq<ContentBlockView>),
}

impl View for UserContent {
    type V = UserContentView;

    open spec fn view(&self) -> UserContentView {
        match self {
            UserContent::Text(t) => UserContentView::Text(t@),
            UserContent::Blocks(b) => UserContentView::Blocks(blocks_view(b@)),
        }
    }
}

/// A message of the conversation history.
#[derive(Debug, Clone, PartialEq)]
pub enum Message {
    User { content: UserContent, timestamp: i64 },
    Assistant {
        content: Vec<ContentBlock>,
        stop_reason: StopReason,
        error_message: Option<String>,
        timestamp: i64,
    },
    ToolResult {
        tool_call_id: String,
        tool_name: String,
        content: Vec<ContentBlock>,
        is_error: bool,
        timestamp: i64,
    },
    Custom { content: String, custom_type: String, timestamp: i64 },
}

/// The mathematical value of a message.
pub enum MessageView {
    User { content: UserContentView, timestamp: i64 },
    Assistant {
        content: Seq<ContentBlockView>,
        stop_reason: StopReason,
        error_message: Option<Seq<char>>,
        timestamp: i64,
    },
    ToolResult {
        tool_call_id: Seq<char>,
        tool_name: Seq<char>,
        content: Seq<ContentBlockView>,
        is_error: bool,
        timestamp: i64,
    },
    Custom { content: Seq<char>, custom_type: Seq<char>, timestamp: i64 },
}

impl View for Message {
    type V = MessageView;

    open spec fn view(&self) -> MessageView {
        match self {
            Message::User { content, timestamp } => MessageView::User {
                content: content@,
                timestamp: *timestamp,
            },
            Message::Assistant { content, stop_reason, error_message, timestamp } =>
                MessageView::Assistant {
                content: blocks_view(content@),
                stop_reason: *stop_reason,
                error_message: error_message.deep_view(),
                timestamp: *timestamp,
            },
            Message::ToolResult { tool_call_id, tool_name, content, is_error, timestamp } =>
                MessageView::ToolResult {
                tool_call_id: tool_call_id@,
                tool_name: tool_name@,
                content: blocks_view(content@),
                is_error: *is_error,
                timestamp: *timestamp,
            },
            Message::Custom { content, custom_type, timestamp } => MessageView::Custom {
                content: content@,
                custom_type: custom_type@,
                timestamp: *timestamp,
            },
        }
    }
}

/// The views of a sequence of messages.
pub open spec fn messages_view(messages: Seq<Message>) -> Seq<MessageView> {
    messages.map_values(|m: Message| m@)
}

} // verus!
