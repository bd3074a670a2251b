//! A programmatic front for a command-line AI assistant: the
//! arguments for one request, the state machine of its run, and the reading
//! of its output, as plain text, as one JSON document or as a stream of JSON
//! events, into responses and messages.
//!
//! The library computes and decides; it starts no process and reads no
//! clock. A caller runs the binary as [`process::ProcessRunner`] tells it to
//! and hands back what happened.

pub mod assoc;
pub mod client;
pub mod codec;
pub mod command;
pub mod config;
pub mod error;
pub mod json;
pub mod mcp;
pub mod message;
pub mod parser;
pub mod process;
pub mod session;
pub mod stream;
pub mod text;
pub mod types;

pub use client::{Client, ClientBuilder, QueryBuilder};
pub use config::{Config, ConfigBuilder, StreamFormat};
pub use error::Error;
pub use json::{Json, JsonNumber};
pub use mcp::{McpConfig, McpServer};
pub use message::{ConversationStats, Message, MessageMeta, MessageType, Timestamp};
pub use process::{CapturedOutput, ProcessRunner, RunnerAction, RunnerEvent, RunnerState};
pub use session::{Session, SessionBuilder, SessionId, SessionManager};
pub use stream::{MessageParser, MessageStream};
pub use types::{ClaudeCliResponse, ClaudeResponse, ResponseMetadata, TokenUsage, ToolPermission};
