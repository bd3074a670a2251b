//! Responses of one-shot requests, the metadata read out of them, and the
//! permission strings that are handed to the binary.

use vstd::prelude::*;
use crate::error::{Error, ErrorView};
use crate::json::{Json, JsonNumber, JsonView};
use crate::text::join;

verus! {

/// The error for a document that is no JSON object.
pub open spec fn not_an_object() -> ErrorView {
    ErrorView::SerializationError("expected a JSON object"@)
}

/// The error for a member that is missing or of the wrong kind.
pub open spec fn invalid_field(key: Seq<char>) -> ErrorView {
    ErrorView::SerializationError("missing or invalid field `"@ + key + "`"@)
}

/// Builds the error [`not_an_object`].
pub fn not_an_object_error() -> (r: Error)
    ensures
        r@ == not_an_object(),
{
    Error::SerializationError("expected a JSON object".to_owned())
}

/// Builds the error [`invalid_field`] for `key`.
pub fn invalid_field_error(key: &str) -> (r: Error)
    ensures
        r@ == invalid_field(key@),
{
    let head = join("missing or invalid field `", key);
    Error::SerializationError(join(head.as_str(), "`"))
}

/// The string member `key`, which has to be there.
pub fn required_text(json: &Json, key: &str) -> (r: Result<String, Error>)
    ensures
        match r {
            Ok(s) => json@.text_field(key@) == Some(s@),
            Err(e) => json@.text_field(key@) is None && e@ == invalid_field(key@),
        },
{
    match json.get_str(key) {
        Some(s) => Ok(s.to_owned()),
        None => Err(invalid_field_error(key)),
    }
}

/// The numeric member `key`, which has to be there.
pub fn required_number(json: &Json, key: &str) -> (r: Result<JsonNumber, Error>)
    ensures
        match r {
            Ok(n) => json@.number_field(key@) == Some(n),
            Err(e) => json@.number_field(key@) is None && e@ == invalid_field(key@),
        },
{
    match json.get_number(key) {
        Some(n) => Ok(n),
        None => Err(invalid_field_error(key)),
    }
}

/// The non-negative integer member `key`, which has to be there.
pub fn required_unsigned(json: &Json, key: &str) -> (r: Result<u64, Error>)
    ensures
        match r {
            Ok(n) => json@.unsigned_field(key@) == Some(n),
            Err(e) => json@.unsigned_field(key@) is None && e@ == invalid_field(key@),
        },
{
    match json.get_u64(key) {
        Some(n) => Ok(n),
        None => Err(invalid_field_error(key)),
    }
}

/// The boolean member `key`, which has to be there.
pub fn required_bool(json: &Json, key: &str) -> (r: Result<bool, Error>)
    ensures
        match r {
            Ok(b) => json@.boolean_field(key@) == Some(b),
            Err(e) => json@.boolean_field(key@) is None && e@ == invalid_field(key@),
        },
{
    match json.get_bool(key) {
        Some(b) => Ok(b),
        None => Err(invalid_field_error(key)),
    }
}

/// The non-negative integer member `key`, which may be left out or `null`.
pub fn optional_unsigned(json: &Json, key: &str) -> (r: Result<Option<u64>, Error>)
    ensures
        match r {
            Ok(n) => json@.optional_unsigned_field(key@) == Some(n),
            Err(e) => json@.optional_unsigned_field(key@) is None && e@ == invalid_field(key@),
        },
{
    match json.get(key) {
        None => Ok(None),
        Some(v) => {
            if v.is_null() {
                Ok(None)
            } else {
                match v.as_u64() {
                    Some(n) => Ok(Some(n)),
                    None => Err(invalid_field_error(key)),
                }
            }
        },
    }
}

/// The one JSON object that the binary writes in the `json` format.
#[derive(Debug, Clone, PartialEq)]
pub struct ClaudeCliResponse {
    /// The member `type`.
    pub response_type: String,
    pub subtype: String,
    pub cost_usd: JsonNumber,
    pub is_error: bool,
    pub duration_ms: u64,
    pub duration_api_ms: Option<u64>,
    pub num_turns: u32,
    pub result: String,
    pub total_cost: JsonNumber,
    pub session_id: String,
}

/// The mathematical value of a [`ClaudeCliResponse`].
pub struct CliResponseView {
    pub response_type: Seq<char>,
    pub subtype: Seq<char>,
    pub cost_usd: JsonNumber,
    pub is_error: bool,
    pub duration_ms: u64,
    pub duration_api_ms: Option<u64>,
    pub num_turns: u32,
    pub result: Seq<char>,
    pub total_cost: JsonNumber,
    pub session_id: Seq<char>,
}

impl View for ClaudeCliResponse {
    type V = CliResponseView;

    open spec fn view(&self) -> CliResponseView {
        CliResponseView {
            response_type: self.response_type@,
            subtype: self.subtype@,
            cost_usd: self.cost_usd,
            is_error: self.is_error,
            duration_ms: self.duration_ms,
            duration_api_ms: self.duration_api_ms,
            num_turns: self.num_turns,
            result: self.result@,
            total_cost: self.total_cost,
            session_id: self.session_id@,
        }
    }
}

/// The turn count of a document: a non-negative integer that fits 32 bits.
pub open spec fn turns_field(j: JsonView) -> Option<u32> {
    match j.unsigned_field("num_turns"@) {
        Some(n) => if n <= u32::MAX {
            Some(n as u32)
        } else {
            None
        },
        None => None,
    }
}

/// The first member of the schema, in its order, that `j` lacks or holds in
/// the wrong kind; `None` where every member is in order.
pub open spec fn first_invalid_field(j: JsonView) -> Option<Seq<char>> {
    if j.text_field("type"@) is None {
        Some("type"@)
    } else if j.text_field("subtype"@) is None {
        Some("subtype"@)
    } else if j.number_field("cost_usd"@) is None {
        Some("cost_usd"@)
    } else if j.boolean_field("is_error"@) is None {
        Some("is_error"@)
    } else if j.unsigned_field("duration_ms"@) is None {
        Some("duration_ms"@)
    } else if j.optional_unsigned_field("duration_api_ms"@) is None {
        Some("duration_api_ms"@)
    } else if turns_field(j) is None {
        Some("num_turns"@)
    } else if j.text_field("result"@) is None {
        Some("result"@)
    } else if j.number_field("total_cost"@) is None {
        Some("total_cost"@)
    } else if j.text_field("session_id"@) is None {
        Some("session_id"@)
    } else {
        None
    }
}

/// What a document is under the schema: the decoded response, or the error
/// for the first thing that is wrong with it. Members that the schema does
/// not name are ignored.
pub open spec fn decode_cli_response(j: JsonView) -> Result<CliResponseView, ErrorView> {
    if !(j is Object) {
        Err(not_an_object())
    } else {
        match first_invalid_field(j) {
            Some(key) => Err(invalid_field(key)),
            None => Ok(
                CliResponseView {
                    response_type: j.text_field("type"@)->0,
                    subtype: j.text_field("subtype"@)->0,
                    cost_usd: j.number_field("cost_usd"@)->0,
                    is_error: j.boolean_field("is_error"@)->0,
                    duration_ms: j.unsigned_field("duration_ms"@)->0,
                    duration_api_ms: j.optional_unsigned_field("duration_api_ms"@)->0,
                    num_turns: turns_field(j)->0,
                    result: j.text_field("result"@)->0,
                    total_cost: j.number_field("total_cost"@)->0,
                    session_id: j.text_field("session_id"@)->0,
                },
            ),
        }
    }
}

/// The view of a decoding's outcome.
pub open spec fn cli_result(r: Result<ClaudeCliResponse, Error>) -> Result<
    CliResponseView,
    ErrorView,
> {
    match r {
        Ok(v) => Ok(v@),
        Err(e) => Err(e@),
    }
}

fn required_turns(json: &Json) -> (r: Result<u32, Error>)
    ensures
        match r {
            Ok(n) => turns_field(json@) == Some(n),
            Err(e) => turns_field(json@) is None && e@ == invalid_field("num_turns"@),
        },
{
    match json.get_u64("num_turns") {
        Some(n) => {
            if n <= 0xffff_ffff {
                Ok(n as u32)
            } else {
                Err(invalid_field_error("num_turns"))
            }
        },
        None => Err(invalid_field_error("num_turns")),
    }
}

impl ClaudeCliResponse {
    /// Decodes a document under the schema, strictly: the first member that
    /// is missing or of the wrong kind fails the whole document.
    pub fn from_json(json: &Json) -> (r: Result<ClaudeCliResponse, Error>)
        ensures
            cli_result(r) == decode_cli_response(json@),
    {
        if !json.is_object() {
            return Err(not_an_object_error());
        }
        let response_type = match required_text(json, "type") {
            Ok(v) => v,
            Err(e) => {
                return Err(e);
            },
        };
        let subtype = match required_text(json, "subtype") {
            Ok(v) => v,
            Err(e) => {
                return Err(e);
            },
        };
        let cost_usd = match required_number(json, "cost_usd") {
            Ok(v) => v,
            Err(e) => {
                return Err(e);
            },
        };
        let is_error = match required_bool(json, "is_error") {
            Ok(v) => v,
            Err(e) => {
                return Err(e);
            },
        };
        let duration_ms = match required_unsigned(json, "duration_ms") {
            Ok(v) => v,
            Err(e) => {
                return Err(e);
            },
        };
        let duration_api_ms = match optional_unsigned(json, "duration_api_ms") {
            Ok(v) => v,
            Err(e) => {
                return Err(e);
            },
        };
        let num_turns = match required_turns(json) {
            Ok(v) => v,
            Err(e) => {
                return Err(e);
            },
        };
        let result = match required_text(json, "result") {
            Ok(v) => v,
            Err(e) => {
                return Err(e);
            },
        };
        let total_cost = match required_number(json, "total_cost") {
            Ok(v) => v,
            Err(e) => {
                return Err(e);
            },
        };
        let session_id = match required_text(json, "session_id") {
            Ok(v) => v,
            Err(e) => {
                return Err(e);
            },
        };
        Ok(
            ClaudeCliResponse {
                response_type,
                subtype,
                cost_usd,
                is_error,
                duration_ms,
                duration_api_ms,
                num_turns,
                result,
                total_cost,
                session_id,
            },
        )
    }
}

/// Token counts as a response reports them; each may be missing.
#[derive(Debug, Clone, Copy, PartialEq, Eq)]
pub struct TokenUsage {
    pub input_tokens: Option<u64>,
    pub output_tokens: Option<u64>,
    pub cache_creation_input_tokens: Option<u64>,
    pub cache_read_input_tokens: Option<u64>,
}

/// What could be read out of a raw payload, beyond the text.
#[derive(Debug, Clone, PartialEq)]
pub struct ResponseMetadata {
    pub session_id: String,
    pub cost_usd: Option<JsonNumber>,
    pub duration_ms: Option<u64>,
    pub tokens_used: Option<TokenUsage>,
    pub model: Option<String>,
}

/// The mathematical value of a [`ResponseMetadata`].
pub struct MetadataView {
    pub session_id: Seq<char>,
    pub cost_usd: Option<JsonNumber>,
    pub duration_ms: Option<u64>,
    pub tokens_used: Option<TokenUsage>,
    pub model: Option<Seq<char>>,
}

impl View for ResponseMetadata {
    type V = MetadataView;

    open spec fn view(&self) -> MetadataView {
        MetadataView {
            session_id: self.session_id@,
            cost_usd: self.cost_usd,
            duration_ms: self.duration_ms,
            tokens_used: self.tokens_used,
            model: crate::config::opt_text(self.model),
        }
    }
}

/// The token counts of a `usage` value: each member that is a non-negative
/// integer, and nothing for the others.
pub open spec fn usage_of(usage: JsonView) -> TokenUsage {
    TokenUsage {
        input_tokens: usage.unsigned_field("input_tokens"@),
        output_tokens: usage.unsigned_field("output_tokens"@),
        cache_creation_input_tokens: usage.unsigned_field("cache_creation_input_tokens"@),
        cache_read_input_tokens: usage.unsigned_field("cache_read_input_tokens"@),
    }
}

/// The token counts under `message.usage`, where that member is there.
pub open spec fn tokens_of(j: JsonView) -> Option<TokenUsage> {
    match j.field("message"@) {
        Some(message) => match message.field("usage"@) {
            Some(usage) => Some(usage_of(usage)),
            None => None,
        },
        None => None,
    }
}

/// The model name under `message.model`, where it is a string.
pub open spec fn model_of(j: JsonView) -> Option<Seq<char>> {
    match j.field("message"@) {
        Some(message) => message.text_field("model"@),
        None => None,
    }
}

/// The metadata of a raw payload. Without a string member `session_id`
/// there is none; every other member is taken where it is found in the
/// expected kind and left out otherwise.
pub open spec fn metadata_of(j: JsonView) -> Option<MetadataView> {
    match j.text_field("session_id"@) {
        None => None,
        Some(session_id) => Some(
            MetadataView {
                session_id,
                cost_usd: j.number_field("cost_usd"@),
                duration_ms: j.unsigned_field("duration_ms"@),
                tokens_used: tokens_of(j),
                model: model_of(j),
            },
        ),
    }
}

/// The view of optional metadata.
pub open spec fn opt_metadata(m: Option<ResponseMetadata>) -> Option<MetadataView> {
    match m {
        Some(m) => Some(m@),
        None => None,
    }
}

/// The view of an optional payload.
pub open spec fn opt_json(j: Option<Json>) -> Option<JsonView> {
    match j {
        Some(j) => Some(j@),
        None => None,
    }
}

/// Anything that is not an object has no metadata.
pub proof fn lemma_no_metadata_without_object(j: JsonView)
    requires
        !(j is Object),
    ensures
        metadata_of(j) is None,
{
}

fn usage_from(usage: &Json) -> (r: TokenUsage)
    ensures
        r == usage_of(usage@),
{
    TokenUsage {
        input_tokens: usage.get_u64("input_tokens"),
        output_tokens: usage.get_u64("output_tokens"),
        cache_creation_input_tokens: usage.get_u64("cache_creation_input_tokens"),
        cache_read_input_tokens: usage.get_u64("cache_read_input_tokens"),
    }
}

/// The text of a response, the raw payload that it was read from, and the
/// metadata found in that payload.
#[derive(Debug, PartialEq)]
pub struct ClaudeResponse {
    pub content: String,
    pub raw_json: Option<Json>,
    pub metadata: Option<ResponseMetadata>,
}

/// The mathematical value of a [`ClaudeResponse`].
pub struct ResponseView {
    pub content: Seq<char>,
    pub raw_json: Option<JsonView>,
    pub metadata: Option<MetadataView>,
}

impl View for ClaudeResponse {
    type V = ResponseView;

    open spec fn view(&self) -> ResponseView {
        ResponseView {
            content: self.content@,
            raw_json: opt_json(self.raw_json),
            metadata: opt_metadata(self.metadata),
        }
    }
}

impl ClaudeResponse {
    /// A response that is text and nothing else.
    pub fn text(content: String) -> (r: Self)
        ensures
            r@ == (ResponseView { content: content@, raw_json: None, metadata: None }),
    {
        ClaudeResponse { content, raw_json: None, metadata: None }
    }

    /// A response with its raw payload, and with the metadata that the
    /// payload holds.
    pub fn with_json(content: String, raw_json: Json) -> (r: Self)
        ensures
            r@ == (ResponseView {
                content: content@,
                raw_json: Some(raw_json@),
                metadata: metadata_of(raw_json@),
            }),
    {
        let metadata = Self::extract_metadata(&raw_json);
        ClaudeResponse { content, raw_json: Some(raw_json), metadata }
    }

    /// Reads the metadata out of a raw payload, as [`metadata_of`] defines
    /// it.
    pub fn extract_metadata(json: &Json) -> (r: Option<ResponseMetadata>)
        ensures
            opt_metadata(r) == metadata_of(json@),
    {
        let session_id = match json.get_str("session_id") {
            Some(s) => s.to_owned(),
            None => {
                return None;
            },
        };
        let cost_usd = json.get_number("cost_usd");
        let duration_ms = json.get_u64("duration_ms");
        let message = json.get("message");
        let tokens_used = match message {
            Some(m) => match m.get("usage") {
                Some(usage) => Some(usage_from(usage)),
                None => None,
            },
            None => None,
        };
        let model = match message {
            Some(m) => match m.get_str("model") {
                Some(name) => Some(name.to_owned()),
                None => None,
            },
            None => None,
        };
        Some(ResponseMetadata { session_id, cost_usd, duration_ms, tokens_used, model })
    }
}

/// A tool that the binary may be allowed to use.
#[derive(Debug, Clone, PartialEq)]
pub enum ToolPermission {
    /// A tool of an MCP server; the tool `*` stands for all of them.
    Mcp { server: String, tool: String },
    /// A shell command.
    Bash { command: String },
    /// Every tool.
    All,
}

/// The mathematical value of a [`ToolPermission`].
pub enum PermissionView {
    Mcp { server: Seq<char>, tool: Seq<char> },
    Bash { command: Seq<char> },
    All,
}

impl View for ToolPermission {
    type V = PermissionView;

    open spec fn view(&self) -> PermissionView {
        match self {
            ToolPermission::Mcp { server, tool } => PermissionView::Mcp {
                server: server@,
                tool: tool@,
            },
            ToolPermission::Bash { command } => PermissionView::Bash { command: command@ },
            ToolPermission::All => PermissionView::All,
        }
    }
}

impl PermissionView {
    /// The permission as the binary's `--allowedTools` flag takes it.
    pub open spec fn cli_format(self) -> Seq<char> {
        match self {
            PermissionView::Mcp { server, tool } => "mcp__"@ + server + "__"@ + tool,
            PermissionView::Bash { command } => "bash:"@ + command,
            PermissionView::All => "*"@,
        }
    }
}

/// The wildcard of an MCP server is written with a star in the tool's
/// place.
pub proof fn lemma_mcp_wildcard(server: Seq<char>)
    ensures
        (PermissionView::Mcp { server, tool: "*"@ }).cli_format() == "mcp__"@ + server + "__*"@,
{
    reveal_strlit("*");
    reveal_strlit("__");
    reveal_strlit("__*");
    assert("__"@ + "*"@ =~= "__*"@);
    assert(("mcp__"@ + server + "__"@) + "*"@ =~= ("mcp__"@ + server) + ("__"@ + "*"@));
}

impl ToolPermission {
    pub fn mcp(server: &str, tool: &str) -> (r: Self)
        ensures
            r@ == (PermissionView::Mcp { server: server@, tool: tool@ }),
    {
        ToolPermission::Mcp { server: server.to_owned(), tool: tool.to_owned() }
    }

    pub fn bash(command: &str) -> (r: Self)
        ensures
            r@ == (PermissionView::Bash { command: command@ }),
    {
        ToolPermission::Bash { command: command.to_owned() }
    }

    /// The permission as the binary's `--allowedTools` flag takes it.
    pub fn to_cli_format(&self) -> (r: String)
        ensures
            r@ == self@.cli_format(),
    {
        match self {
            ToolPermission::Mcp { server, tool } => {
                let head = join("mcp__", server.as_str());
                let scoped = join(head.as_str(), "__");
                join(scoped.as_str(), tool.as_str())
            },
            ToolPermission::Bash { command } => join("bash:", command.as_str()),
            ToolPermission::All => "*".to_owned(),
        }
    }
}

} // verus!
