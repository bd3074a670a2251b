//! The failures that a request can end in.

use vstd::prelude::*;
use crate::text::{join, decimal, decimal_string};

verus! {

/// Why a request failed.
#[derive(Debug, Clone, PartialEq, Eq)]
pub enum Error {
    /// The assistant's binary could not be located.
    BinaryNotFound,
    /// No session with this identifier is registered.
    SessionNotFound(String),
    PermissionDenied(String),
    McpError(String),
    ConfigError(String),
    InvalidInput(String),
    /// The process did not finish within this many seconds: the configured
    /// limit, not the time that passed.
    Timeout(u64),
    /// The output was not the JSON that the format asks for; the cause in
    /// words.
    SerializationError(String),
    /// The operating system refused to start or to await the process.
    Io(String),
    /// The process ended with a failure status; what it wrote to its
    /// standard error.
    ProcessError(String),
    StreamClosed,
}

/// The mathematical value of an [`Error`].
pub enum ErrorView {
    BinaryNotFound,
    SessionNotFound(Seq<char>),
    PermissionDenied(Seq<char>),
    McpError(Seq<char>),
    ConfigError(Seq<char>),
    InvalidInput(Seq<char>),
    Timeout(u64),
    SerializationError(Seq<char>),
    Io(Seq<char>),
    ProcessError(Seq<char>),
    StreamClosed,
}

impl View for Error {
    type V = ErrorView;

    open spec fn view(&self) -> ErrorView {
        match self {
            Error::BinaryNotFound => ErrorView::BinaryNotFound,
            Error::SessionNotFound(s) => ErrorView::SessionNotFound(s@),
            Error::PermissionDenied(s) => ErrorView::PermissionDenied(s@),
            Error::McpError(s) => ErrorView::McpError(s@),
            Error::ConfigError(s) => ErrorView::ConfigError(s@),
            Error::InvalidInput(s) => ErrorView::InvalidInput(s@),
            Error::Timeout(secs) => ErrorView::Timeout(*secs),
            Error::SerializationError(s) => ErrorView::SerializationError(s@),
            Error::Io(s) => ErrorView::Io(s@),
            Error::ProcessError(s) => ErrorView::ProcessError(s@),
            Error::StreamClosed => ErrorView::StreamClosed,
        }
    }
}

impl ErrorView {
    /// The sentence that describes the failure.
    pub open spec fn message(self) -> Seq<char> {
        match self {
            ErrorView::BinaryNotFound => "assistant binary not found in PATH"@,
            ErrorView::SessionNotFound(id) => "Session "@ + id + " not found"@,
            ErrorView::PermissionDenied(what) => "Tool permission denied: "@ + what,
            ErrorView::McpError(what) => "MCP server error: "@ + what,
            ErrorView::ConfigError(what) => "Invalid configuration: "@ + what,
            ErrorView::InvalidInput(what) => "Invalid input: "@ + what,
            ErrorView::Timeout(secs) => "Operation timed out after "@ + decimal(secs as nat) + "s"@,
            ErrorView::SerializationError(what) => "Serialization error: "@ + what,
            ErrorView::Io(what) => "IO error: "@ + what,
            ErrorView::ProcessError(what) => "Process error: "@ + what,
            ErrorView::StreamClosed => "Stream closed unexpectedly"@,
        }
    }
}

impl Error {
    /// The sentence that describes the failure.
    pub fn message(&self) -> (r: String)
        ensures
            r@ == self@.message(),
    {
        match self {
            Error::BinaryNotFound => "assistant binary not found in PATH".to_owned(),
            Error::SessionNotFound(id) => {
                let head = join("Session ", id.as_str());
                join(head.as_str(), " not found")
            },
            Error::PermissionDenied(what) => join("Tool permission denied: ", what.as_str()),
            Error::McpError(what) => join("MCP server error: ", what.as_str()),
            Error::ConfigError(what) => join("Invalid configuration: ", what.as_str()),
            Error::InvalidInput(what) => join("Invalid input: ", what.as_str()),
            Error::Timeout(secs) => {
                let number = decimal_string(*secs);
                let head = join("Operation timed out after ", number.as_str());
                join(head.as_str(), "s")
            },
            Error::SerializationError(what) => join("Serialization error: ", what.as_str()),
            Error::Io(what) => join("IO error: ", what.as_str()),
            Error::ProcessError(what) => join("Process error: ", what.as_str()),
            Error::StreamClosed => "Stream closed unexpectedly".to_owned(),
        }
    }
}

} // verus!
