//! The messages of a conversation, and their JSON form.

use vstd::prelude::*;
use crate::json::{Json, JsonNumber, JsonView};

verus! {

/// The kind of a message.
#[derive(Debug, Clone, Copy, PartialEq, Eq, Structural)]
pub enum MessageType {
    Init,
    User,
    Assistant,
    Result,
    System,
    Tool,
    ToolResult,
}

/// A point in time, counted from the Unix epoch.
#[derive(Debug, Clone, Copy, PartialEq, Eq)]
pub struct Timestamp {
    pub secs_since_epoch: u64,
    pub nanos_since_epoch: u32,
}

/// The nanoseconds of one second.
pub const NANOS_PER_SEC: u32 = 1_000_000_000;

impl Timestamp {
    /// The nanoseconds stay below one second.
    pub open spec fn wf(self) -> bool {
        self.nanos_since_epoch < NANOS_PER_SEC
    }
}

/// Token counts of a message or of a whole conversation.
#[derive(Debug, Clone, Copy, PartialEq, Eq)]
pub struct TokenUsage {
    pub input: u64,
    pub output: u64,
    pub total: u64,
}

/// What every message carries. A field that is not known is absent.
#[derive(Debug, Clone, PartialEq)]
pub struct MessageMeta {
    pub session_id: String,
    pub timestamp: Option<Timestamp>,
    pub cost_usd: Option<JsonNumber>,
    pub duration_ms: Option<u64>,
    pub tokens_used: Option<TokenUsage>,
}

/// The mathematical value of a [`MessageMeta`].
pub struct MetaView {
    pub session_id: Seq<char>,
    pub timestamp: Option<Timestamp>,
    pub cost_usd: Option<JsonNumber>,
    pub duration_ms: Option<u64>,
    pub tokens_used: Option<TokenUsage>,
}

impl View for MessageMeta {
    type V = MetaView;

    open spec fn view(&self) -> MetaView {
        MetaView {
            session_id: self.session_id@,
            timestamp: self.timestamp,
            cost_usd: self.cost_usd,
            duration_ms: self.duration_ms,
            tokens_used: self.tokens_used,
        }
    }
}

impl MetaView {
    /// Metadata that survives being written and read again.
    pub open spec fn wf(self) -> bool {
        &&& self.timestamp matches Some(t) ==> t.wf()
        &&& self.cost_usd matches Some(n) ==> n.writable()
    }
}

/// The totals of a conversation.
#[derive(Debug, Clone, Copy, PartialEq)]
pub struct ConversationStats {
    pub total_messages: u64,
    pub total_cost_usd: JsonNumber,
    pub total_duration_ms: u64,
    pub total_tokens: TokenUsage,
}

/// One message of a conversation.
#[derive(Debug, PartialEq)]
pub enum Message {
    Init { meta: MessageMeta },
    User { content: String, meta: MessageMeta },
    Assistant { content: String, meta: MessageMeta },
    Result { meta: MessageMeta, stats: ConversationStats },
    System { content: String, meta: MessageMeta },
    Tool { name: String, parameters: Json, meta: MessageMeta },
    ToolResult { tool_name: String, result: Json, meta: MessageMeta },
}

/// The mathematical value of a [`Message`].
pub enum MessageView {
    Init { meta: MetaView },
    User { content: Seq<char>, meta: MetaView },
    Assistant { content: Seq<char>, meta: MetaView },
    Result { meta: MetaView, stats: ConversationStats },
    System { content: Seq<char>, meta: MetaView },
    Tool { name: Seq<char>, parameters: JsonView, meta: MetaView },
    ToolResult { tool_name: Seq<char>, result: JsonView, meta: MetaView },
}

impl View for Message {
    type V = MessageView;

    open spec fn view(&self) -> MessageView {
        match self {
            Message::Init { meta } => MessageView::Init { meta: meta@ },
            Message::User { content, meta } => MessageView::User { content: content@, meta: meta@ },
            Message::Assistant { content, meta } => MessageView::Assistant {
                content: content@,
                meta: meta@,
            },
            Message::Result { meta, stats } => MessageView::Result { meta: meta@, stats: *stats },
            Message::System { content, meta } => MessageView::System {
                content: content@,
                meta: meta@,
            },
            Message::Tool { name, parameters, meta } => MessageView::Tool {
                name: name@,
                parameters: parameters@,
                meta: meta@,
            },
            Message::ToolResult { tool_name, result, meta } => MessageView::ToolResult {
                tool_name: tool_name@,
                result: result@,
                meta: meta@,
            },
        }
    }
}

impl MessageView {
    /// The kind of the message.
    pub open spec fn message_type(self) -> MessageType {
        match self {
            MessageView::Init { .. } => MessageType::Init,
            MessageView::User { .. } => MessageType::User,
            MessageView::Assistant { .. } => MessageType::Assistant,
            MessageView::Result { .. } => MessageType::Result,
            MessageView::System { .. } => MessageType::System,
            MessageView::Tool { .. } => MessageType::Tool,
            MessageView::ToolResult { .. } => MessageType::ToolResult,
        }
    }

    /// The metadata of the message.
    pub open spec fn meta(self) -> MetaView {
        match self {
            MessageView::Init { meta } => meta,
            MessageView::User { meta, .. } => meta,
            MessageView::Assistant { meta, .. } => meta,
            MessageView::Result { meta, .. } => meta,
            MessageView::System { meta, .. } => meta,
            MessageView::Tool { meta, .. } => meta,
            MessageView::ToolResult { meta, .. } => meta,
        }
    }

    /// A message that survives being written and read again.
    pub open spec fn wf(self) -> bool {
        &&& self.meta().wf()
        &&& self matches MessageView::Result { stats, .. } ==> stats.total_cost_usd.writable()
    }
}

impl Message {
    /// The kind of the message.
    pub fn message_type(&self) -> (r: MessageType)
        ensures
            r == self@.message_type(),
    {
        match self {
            Message::Init { .. } => MessageType::Init,
            Message::User { .. } => MessageType::User,
            Message::Assistant { .. } => MessageType::Assistant,
            Message::Result { .. } => MessageType::Result,
            Message::System { .. } => MessageType::System,
            Message::Tool { .. } => MessageType::Tool,
            Message::ToolResult { .. } => MessageType::ToolResult,
        }
    }

    /// The metadata of the message.
    pub fn meta(&self) -> (r: &MessageMeta)
        ensures
            r@ == self@.meta(),
    {
        match self {
            Message::Init { meta } => meta,
            Message::User { meta, .. } => meta,
            Message::Assistant { meta, .. } => meta,
            Message::Result { meta, .. } => meta,
            Message::System { meta, .. } => meta,
            Message::Tool { meta, .. } => meta,
            Message::ToolResult { meta, .. } => meta,
        }
    }
}

} // verus!
