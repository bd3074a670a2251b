//! The JSON form of a message: an object whose member `type` names the kind
//! in snake case, with the fields of the kind and of the metadata beside it
//! on the same level.

use vstd::prelude::*;
use crate::error::{Error, ErrorView};
use crate::assoc::{entry_views, lemma_get_at, lemma_get_front, lemma_get_skips, Entries};
use crate::json::{lemma_object_view, Json, JsonNumber, JsonView};
use crate::message::{
    ConversationStats,
    Message,
    MessageMeta,
    MessageType,
    MessageView,
    MetaView,
    Timestamp,
    TokenUsage,
    NANOS_PER_SEC,
};
use crate::text::same_text;
use crate::types::{
    invalid_field,
    invalid_field_error,
    not_an_object,
    not_an_object_error,
    optional_unsigned,
    required_text,
};

verus! {

/// The name of a kind in a message's `type` member.
pub open spec fn tag_name(kind: MessageType) -> Seq<char> {
    match kind {
        MessageType::Init => "init"@,
        MessageType::User => "user"@,
        MessageType::Assistant => "assistant"@,
        MessageType::Result => "result"@,
        MessageType::System => "system"@,
        MessageType::Tool => "tool"@,
        MessageType::ToolResult => "tool_result"@,
    }
}

/// A non-negative integer as a JSON value.
pub open spec fn unsigned_value(n: u64) -> JsonView {
    JsonView::Number(JsonNumber::PosInt(n))
}

/// A number as a JSON value; one that JSON cannot write becomes `null`.
pub open spec fn number_value(n: JsonNumber) -> JsonView {
    if n.writable() {
        JsonView::Number(n)
    } else {
        JsonView::Null
    }
}

/// An optional number as a JSON value, `null` where it is absent.
pub open spec fn optional_number_value(n: Option<JsonNumber>) -> JsonView {
    match n {
        Some(n) => number_value(n),
        None => JsonView::Null,
    }
}

/// An optional integer as a JSON value, `null` where it is absent.
pub open spec fn optional_unsigned_value(n: Option<u64>) -> JsonView {
    match n {
        Some(n) => unsigned_value(n),
        None => JsonView::Null,
    }
}

/// A point in time as an object of seconds and nanoseconds.
pub open spec fn timestamp_value(t: Timestamp) -> JsonView {
    JsonView::Object(
        seq![
            ("secs_since_epoch"@, unsigned_value(t.secs_since_epoch)),
            ("nanos_since_epoch"@, unsigned_value(t.nanos_since_epoch as u64)),
        ],
    )
}

/// An optional point in time, `null` where it is absent.
pub open spec fn optional_timestamp_value(t: Option<Timestamp>) -> JsonView {
    match t {
        Some(t) => timestamp_value(t),
        None => JsonView::Null,
    }
}

/// Token counts as an object.
pub open spec fn usage_value(u: TokenUsage) -> JsonView {
    JsonView::Object(
        seq![
            ("input"@, unsigned_value(u.input)),
            ("output"@, unsigned_value(u.output)),
            ("total"@, unsigned_value(u.total)),
        ],
    )
}

/// Optional token counts, `null` where they are absent.
pub open spec fn optional_usage_value(u: Option<TokenUsage>) -> JsonView {
    match u {
        Some(u) => usage_value(u),
        None => JsonView::Null,
    }
}

/// The totals of a conversation as an object.
pub open spec fn stats_value(s: ConversationStats) -> JsonView {
    JsonView::Object(
        seq![
            ("total_messages"@, unsigned_value(s.total_messages)),
            ("total_cost_usd"@, number_value(s.total_cost_usd)),
            ("total_duration_ms"@, unsigned_value(s.total_duration_ms)),
            ("total_tokens"@, usage_value(s.total_tokens)),
        ],
    )
}

/// The members that the metadata adds to a message's object.
pub open spec fn meta_members(meta: MetaView) -> Entries<JsonView> {
    seq![
        ("session_id"@, JsonView::String(meta.session_id)),
        ("timestamp"@, optional_timestamp_value(meta.timestamp)),
        ("cost_usd"@, optional_number_value(meta.cost_usd)),
        ("duration_ms"@, optional_unsigned_value(meta.duration_ms)),
        ("tokens_used"@, optional_usage_value(meta.tokens_used)),
    ]
}

/// The member `type` of a message of the given kind.
pub open spec fn tag_member(kind: MessageType) -> (Seq<char>, JsonView) {
    ("type"@, JsonView::String(tag_name(kind)))
}

/// The members that come before the metadata: the kind, and the fields of
/// the kind.
pub open spec fn head_members(m: MessageView) -> Entries<JsonView> {
    match m {
        MessageView::Init { .. } => seq![tag_member(MessageType::Init)],
        MessageView::User { content, .. } => seq![
            tag_member(MessageType::User),
            ("content"@, JsonView::String(content)),
        ],
        MessageView::Assistant { content, .. } => seq![
            tag_member(MessageType::Assistant),
            ("content"@, JsonView::String(content)),
        ],
        MessageView::Result { stats, .. } => seq![
            tag_member(MessageType::Result),
            ("stats"@, stats_value(stats)),
        ],
        MessageView::System { content, .. } => seq![
            tag_member(MessageType::System),
            ("content"@, JsonView::String(content)),
        ],
        MessageView::Tool { name, parameters, .. } => seq![
            tag_member(MessageType::Tool),
            ("name"@, JsonView::String(name)),
            ("parameters"@, parameters),
        ],
        MessageView::ToolResult { tool_name, result, .. } => seq![
            tag_member(MessageType::ToolResult),
            ("tool_name"@, JsonView::String(tool_name)),
            ("result"@, result),
        ],
    }
}

/// The JSON form of a message.
pub open spec fn encode_message(m: MessageView) -> JsonView {
    JsonView::Object(head_members(m) + meta_members(m.meta()))
}

/// The point in time that a value holds: an object with both counts, whose
/// nanoseconds fit 32 bits. Whole seconds among the nanoseconds are carried
/// over; a value whose seconds then no longer fit holds no point in time.
pub open spec fn timestamp_of(v: JsonView) -> Option<Timestamp> {
    match (v.unsigned_field("secs_since_epoch"@), v.unsigned_field("nanos_since_epoch"@)) {
        (Some(secs), Some(nanos)) => if nanos <= u32::MAX && secs + nanos / (NANOS_PER_SEC as u64)
            <= u64::MAX {
            Some(
                Timestamp {
                    secs_since_epoch: (secs + nanos / (NANOS_PER_SEC as u64)) as u64,
                    nanos_since_epoch: (nanos % (NANOS_PER_SEC as u64)) as u32,
                },
            )
        } else {
            None
        },
        _ => None,
    }
}

/// The member `timestamp`, which may be left out or `null`.
pub open spec fn timestamp_field(j: JsonView) -> Option<Option<Timestamp>> {
    match j.field("timestamp"@) {
        None => Some(None),
        Some(JsonView::Null) => Some(None),
        Some(v) => match timestamp_of(v) {
            Some(t) => Some(Some(t)),
            None => None,
        },
    }
}

/// The token counts that a value holds: all three, as non-negative
/// integers.
pub open spec fn usage_of(v: JsonView) -> Option<TokenUsage> {
    match (v.unsigned_field("input"@), v.unsigned_field("output"@), v.unsigned_field("total"@)) {
        (Some(input), Some(output), Some(total)) => Some(TokenUsage { input, output, total }),
        _ => None,
    }
}

/// The member `tokens_used`, which may be left out or `null`.
pub open spec fn usage_field(j: JsonView) -> Option<Option<TokenUsage>> {
    match j.field("tokens_used"@) {
        None => Some(None),
        Some(JsonView::Null) => Some(None),
        Some(v) => match usage_of(v) {
            Some(u) => Some(Some(u)),
            None => None,
        },
    }
}

/// The totals that a value holds: all four members in their kinds.
pub open spec fn stats_of(v: JsonView) -> Option<ConversationStats> {
    match (
        v.unsigned_field("total_messages"@),
        v.number_field("total_cost_usd"@),
        v.unsigned_field("total_duration_ms"@),
        v.field("total_tokens"@),
    ) {
        (Some(total_messages), Some(total_cost_usd), Some(total_duration_ms), Some(tokens)) => {
            match usage_of(tokens) {
                Some(total_tokens) => Some(
                    ConversationStats {
                        total_messages,
                        total_cost_usd,
                        total_duration_ms,
                        total_tokens,
                    },
                ),
                None => None,
            }
        },
        _ => None,
    }
}

/// The member `stats`, which has to be there.
pub open spec fn stats_field(j: JsonView) -> Option<ConversationStats> {
    match j.field("stats"@) {
        Some(v) => stats_of(v),
        None => None,
    }
}

/// The metadata of a message's object, or the error for the first member
/// that is wrong.
pub open spec fn decode_meta(j: JsonView) -> Result<MetaView, ErrorView> {
    if j.text_field("session_id"@) is None {
        Err(invalid_field("session_id"@))
    } else if timestamp_field(j) is None {
        Err(invalid_field("timestamp"@))
    } else if j.optional_number_field("cost_usd"@) is None {
        Err(invalid_field("cost_usd"@))
    } else if j.optional_unsigned_field("duration_ms"@) is None {
        Err(invalid_field("duration_ms"@))
    } else if usage_field(j) is None {
        Err(invalid_field("tokens_used"@))
    } else {
        Ok(
            MetaView {
                session_id: j.text_field("session_id"@)->0,
                timestamp: timestamp_field(j)->0,
                cost_usd: j.optional_number_field("cost_usd"@)->0,
                duration_ms: j.optional_unsigned_field("duration_ms"@)->0,
                tokens_used: usage_field(j)->0,
            },
        )
    }
}

/// The kind that a tag names.
pub open spec fn kind_of_tag(tag: Seq<char>) -> Option<MessageType> {
    if tag == "init"@ {
        Some(MessageType::Init)
    } else if tag == "user"@ {
        Some(MessageType::User)
    } else if tag == "assistant"@ {
        Some(MessageType::Assistant)
    } else if tag == "result"@ {
        Some(MessageType::Result)
    } else if tag == "system"@ {
        Some(MessageType::System)
    } else if tag == "tool"@ {
        Some(MessageType::Tool)
    } else if tag == "tool_result"@ {
        Some(MessageType::ToolResult)
    } else {
        None
    }
}

/// The message of the given kind that an object holds beside its metadata.
pub open spec fn decode_body(kind: MessageType, j: JsonView, meta: MetaView) -> Result<
    MessageView,
    ErrorView,
> {
    match kind {
        MessageType::Init => Ok(MessageView::Init { meta }),
        MessageType::User => match j.text_field("content"@) {
            Some(content) => Ok(MessageView::User { content, meta }),
            None => Err(invalid_field("content"@)),
        },
        MessageType::Assistant => match j.text_field("content"@) {
            Some(content) => Ok(MessageView::Assistant { content, meta }),
            None => Err(invalid_field("content"@)),
        },
        MessageType::Result => match stats_field(j) {
            Some(stats) => Ok(MessageView::Result { meta, stats }),
            None => Err(invalid_field("stats"@)),
        },
        MessageType::System => match j.text_field("content"@) {
            Some(content) => Ok(MessageView::System { content, meta }),
            None => Err(invalid_field("content"@)),
        },
        MessageType::Tool => match j.text_field("name"@) {
            None => Err(invalid_field("name"@)),
            Some(name) => match j.field("parameters"@) {
                Some(parameters) => Ok(MessageView::Tool { name, parameters, meta }),
                None => Err(invalid_field("parameters"@)),
            },
        },
        MessageType::ToolResult => match j.text_field("tool_name"@) {
            None => Err(invalid_field("tool_name"@)),
            Some(tool_name) => match j.field("result"@) {
                Some(result) => Ok(MessageView::ToolResult { tool_name, result, meta }),
                None => Err(invalid_field("result"@)),
            },
        },
    }
}

/// The message that a JSON value holds, or the error for the first thing
/// that is wrong with it: it has to be an object, its `type` has to name a
/// kind, and the metadata and the fields of the kind have to be there in
/// their kinds. Entries<JsonView> that are not asked for are ignored.
pub open spec fn decode_message(j: JsonView) -> Result<MessageView, ErrorView> {
    if !(j is Object) {
        Err(not_an_object())
    } else {
        match j.text_field("type"@) {
            None => Err(invalid_field("type"@)),
            Some(tag) => match kind_of_tag(tag) {
                None => Err(invalid_field("type"@)),
                Some(kind) => match decode_meta(j) {
                    Err(e) => Err(e),
                    Ok(meta) => decode_body(kind, j, meta),
                },
            },
        }
    }
}

/// The view of a decoding's outcome.
pub open spec fn message_result(r: Result<Message, Error>) -> Result<MessageView, ErrorView> {
    match r {
        Ok(m) => Ok(m@),
        Err(e) => Err(e@),
    }
}

fn member(key: &str, value: Json) -> (r: (String, Json))
    ensures
        r.0@ == key@,
        r.1 == value,
{
    (key.to_owned(), value)
}

fn text_json(s: &str) -> (r: Json)
    ensures
        r@ == JsonView::String(s@),
{
    Json::String(s.to_owned())
}

fn unsigned_json(n: u64) -> (r: Json)
    ensures
        r@ == unsigned_value(n),
{
    Json::Number(JsonNumber::PosInt(n))
}

fn number_json(n: JsonNumber) -> (r: Json)
    ensures
        r@ == number_value(n),
{
    if n.is_writable() {
        Json::Number(n)
    } else {
        Json::Null
    }
}

fn optional_number_json(n: Option<JsonNumber>) -> (r: Json)
    ensures
        r@ == optional_number_value(n),
{
    match n {
        Some(n) => number_json(n),
        None => Json::Null,
    }
}

fn optional_unsigned_json(n: Option<u64>) -> (r: Json)
    ensures
        r@ == optional_unsigned_value(n),
{
    match n {
        Some(n) => unsigned_json(n),
        None => Json::Null,
    }
}

fn timestamp_json(t: Timestamp) -> (r: Json)
    ensures
        r@ == timestamp_value(t),
{
    let mut members: Vec<(String, Json)> = Vec::new();
    members.push(member("secs_since_epoch", unsigned_json(t.secs_since_epoch)));
    members.push(member("nanos_since_epoch", unsigned_json(t.nanos_since_epoch as u64)));
    proof {
        lemma_object_view(members);
        assert(entry_views(members@) =~= timestamp_value(t)->Object_0);
    }
    Json::Object(members)
}

fn optional_timestamp_json(t: Option<Timestamp>) -> (r: Json)
    ensures
        r@ == optional_timestamp_value(t),
{
    match t {
        Some(t) => timestamp_json(t),
        None => Json::Null,
    }
}

fn usage_json(u: TokenUsage) -> (r: Json)
    ensures
        r@ == usage_value(u),
{
    let mut members: Vec<(String, Json)> = Vec::new();
    members.push(member("input", unsigned_json(u.input)));
    members.push(member("output", unsigned_json(u.output)));
    members.push(member("total", unsigned_json(u.total)));
    proof {
        lemma_object_view(members);
        assert(entry_views(members@) =~= usage_value(u)->Object_0);
    }
    Json::Object(members)
}

fn optional_usage_json(u: Option<TokenUsage>) -> (r: Json)
    ensures
        r@ == optional_usage_value(u),
{
    match u {
        Some(u) => usage_json(u),
        None => Json::Null,
    }
}

fn stats_json(s: &ConversationStats) -> (r: Json)
    ensures
        r@ == stats_value(*s),
{
    let mut members: Vec<(String, Json)> = Vec::new();
    members.push(member("total_messages", unsigned_json(s.total_messages)));
    members.push(member("total_cost_usd", number_json(s.total_cost_usd)));
    members.push(member("total_duration_ms", unsigned_json(s.total_duration_ms)));
    members.push(member("total_tokens", usage_json(s.total_tokens)));
    proof {
        lemma_object_view(members);
        assert(entry_views(members@) =~= stats_value(*s)->Object_0);
    }
    Json::Object(members)
}

fn tag_json(kind: MessageType) -> (r: (String, Json))
    ensures
        (r.0@, r.1@) == tag_member(kind),
{
    let name = match kind {
        MessageType::Init => "init",
        MessageType::User => "user",
        MessageType::Assistant => "assistant",
        MessageType::Result => "result",
        MessageType::System => "system",
        MessageType::Tool => "tool",
        MessageType::ToolResult => "tool_result",
    };
    member("type", text_json(name))
}

fn push_meta(members: &mut Vec<(String, Json)>, meta: &MessageMeta)
    ensures
        entry_views(final(members)@) == entry_views(old(members)@) + meta_members(meta@),
{
    members.push(member("session_id", text_json(meta.session_id.as_str())));
    members.push(member("timestamp", optional_timestamp_json(meta.timestamp)));
    members.push(member("cost_usd", optional_number_json(meta.cost_usd)));
    members.push(member("duration_ms", optional_unsigned_json(meta.duration_ms)));
    members.push(member("tokens_used", optional_usage_json(meta.tokens_used)));
    assert(entry_views(members@) =~= entry_views(old(members)@) + meta_members(meta@));
}

impl Message {
    /// The JSON form of the message.
    pub fn to_json(&self) -> (r: Json)
        ensures
            r@ == encode_message(self@),
    {
        let mut members: Vec<(String, Json)> = Vec::new();
        members.push(tag_json(self.message_type()));
        match self {
            Message::Init { .. } => {},
            Message::User { content, .. } => {
                members.push(member("content", text_json(content.as_str())));
            },
            Message::Assistant { content, .. } => {
                members.push(member("content", text_json(content.as_str())));
            },
            Message::Result { stats, .. } => {
                members.push(member("stats", stats_json(stats)));
            },
            Message::System { content, .. } => {
                members.push(member("content", text_json(content.as_str())));
            },
            Message::Tool { name, parameters, .. } => {
                members.push(member("name", text_json(name.as_str())));
                members.push(member("parameters", parameters.deep_clone()));
            },
            Message::ToolResult { tool_name, result, .. } => {
                members.push(member("tool_name", text_json(tool_name.as_str())));
                members.push(member("result", result.deep_clone()));
            },
        }
        assert(entry_views(members@) =~= head_members(self@));
        push_meta(&mut members, self.meta());
        proof {
            lemma_object_view(members);
        }
        Json::Object(members)
    }
}

fn optional_number(json: &Json, key: &str) -> (r: Result<Option<JsonNumber>, Error>)
    ensures
        match r {
            Ok(n) => json@.optional_number_field(key@) == Some(n),
            Err(e) => json@.optional_number_field(key@) is None && e@ == invalid_field(key@),
        },
{
    match json.get(key) {
        None => Ok(None),
        Some(v) => {
            if v.is_null() {
                Ok(None)
            } else {
                match v.as_number() {
                    Some(n) => Ok(Some(n)),
                    None => Err(invalid_field_error(key)),
                }
            }
        },
    }
}

fn timestamp_from(v: &Json) -> (r: Option<Timestamp>)
    ensures
        r == timestamp_of(v@),
{
    let secs = match v.get_u64("secs_since_epoch") {
        Some(n) => n,
        None => {
            return None;
        },
    };
    let nanos = match v.get_u64("nanos_since_epoch") {
        Some(n) => n,
        None => {
            return None;
        },
    };
    if nanos > 0xffff_ffff {
        return None;
    }
    let carry: u64 = nanos / 1_000_000_000;
    if secs > u64::MAX - carry {
        return None;
    }
    Some(
        Timestamp {
            secs_since_epoch: secs + carry,
            nanos_since_epoch: (nanos % 1_000_000_000) as u32,
        },
    )
}

fn optional_timestamp(json: &Json) -> (r: Result<Option<Timestamp>, Error>)
    ensures
        match r {
            Ok(t) => timestamp_field(json@) == Some(t),
            Err(e) => timestamp_field(json@) is None && e@ == invalid_field("timestamp"@),
        },
{
    match json.get("timestamp") {
        None => Ok(None),
        Some(v) => {
            if v.is_null() {
                Ok(None)
            } else {
                match timestamp_from(v) {
                    Some(t) => Ok(Some(t)),
                    None => Err(invalid_field_error("timestamp")),
                }
            }
        },
    }
}

fn usage_from(v: &Json) -> (r: Option<TokenUsage>)
    ensures
        r == usage_of(v@),
{
    let input = match v.get_u64("input") {
        Some(n) => n,
        None => {
            return None;
        },
    };
    let output = match v.get_u64("output") {
        Some(n) => n,
        None => {
            return None;
        },
    };
    let total = match v.get_u64("total") {
        Some(n) => n,
        None => {
            return None;
        },
    };
    Some(TokenUsage { input, output, total })
}

fn optional_usage(json: &Json) -> (r: Result<Option<TokenUsage>, Error>)
    ensures
        match r {
            Ok(u) => usage_field(json@) == Some(u),
            Err(e) => usage_field(json@) is None && e@ == invalid_field("tokens_used"@),
        },
{
    match json.get("tokens_used") {
        None => Ok(None),
        Some(v) => {
            if v.is_null() {
                Ok(None)
            } else {
                match usage_from(v) {
                    Some(u) => Ok(Some(u)),
                    None => Err(invalid_field_error("tokens_used")),
                }
            }
        },
    }
}

fn stats_from(v: &Json) -> (r: Option<ConversationStats>)
    ensures
        r == stats_of(v@),
{
    let total_messages = match v.get_u64("total_messages") {
        Some(n) => n,
        None => {
            return None;
        },
    };
    let total_cost_usd = match v.get_number("total_cost_usd") {
        Some(n) => n,
        None => {
            return None;
        },
    };
    let total_duration_ms = match v.get_u64("total_duration_ms") {
        Some(n) => n,
        None => {
            return None;
        },
    };
    let total_tokens = match v.get("total_tokens") {
        Some(tokens) => match usage_from(tokens) {
            Some(u) => u,
            None => {
                return None;
            },
        },
        None => {
            return None;
        },
    };
    Some(ConversationStats { total_messages, total_cost_usd, total_duration_ms, total_tokens })
}

fn required_stats(json: &Json) -> (r: Result<ConversationStats, Error>)
    ensures
        match r {
            Ok(s) => stats_field(json@) == Some(s),
            Err(e) => stats_field(json@) is None && e@ == invalid_field("stats"@),
        },
{
    let found = match json.get("stats") {
        Some(v) => stats_from(v),
        None => None,
    };
    match found {
        Some(s) => Ok(s),
        None => Err(invalid_field_error("stats")),
    }
}

fn required_value(json: &Json, key: &str) -> (r: Result<Json, Error>)
    ensures
        match r {
            Ok(v) => json@.field(key@) == Some(v@),
            Err(e) => json@.field(key@) is None && e@ == invalid_field(key@),
        },
{
    match json.get(key) {
        Some(v) => Ok(v.deep_clone()),
        None => Err(invalid_field_error(key)),
    }
}

/// The view of a metadata decoding's outcome.
pub open spec fn meta_result(r: Result<MessageMeta, Error>) -> Result<MetaView, ErrorView> {
    match r {
        Ok(m) => Ok(m@),
        Err(e) => Err(e@),
    }
}

impl MessageMeta {
    /// Reads the metadata out of a message's object.
    pub fn from_json(json: &Json) -> (r: Result<MessageMeta, Error>)
        ensures
            meta_result(r) == decode_meta(json@),
    {
        let session_id = match required_text(json, "session_id") {
            Ok(v) => v,
            Err(e) => {
                return Err(e);
            },
        };
        let timestamp = match optional_timestamp(json) {
            Ok(v) => v,
            Err(e) => {
                return Err(e);
            },
        };
        let cost_usd = match optional_number(json, "cost_usd") {
            Ok(v) => v,
            Err(e) => {
                return Err(e);
            },
        };
        let duration_ms = match optional_unsigned(json, "duration_ms") {
            Ok(v) => v,
            Err(e) => {
                return Err(e);
            },
        };
        let tokens_used = match optional_usage(json) {
            Ok(v) => v,
            Err(e) => {
                return Err(e);
            },
        };
        Ok(MessageMeta { session_id, timestamp, cost_usd, duration_ms, tokens_used })
    }
}

impl MessageType {
    /// The kind that a tag names.
    pub fn from_tag(tag: &str) -> (r: Option<MessageType>)
        ensures
            r == kind_of_tag(tag@),
    {
        if same_text(tag, "init") {
            Some(MessageType::Init)
        } else if same_text(tag, "user") {
            Some(MessageType::User)
        } else if same_text(tag, "assistant") {
            Some(MessageType::Assistant)
        } else if same_text(tag, "result") {
            Some(MessageType::Result)
        } else if same_text(tag, "system") {
            Some(MessageType::System)
        } else if same_text(tag, "tool") {
            Some(MessageType::Tool)
        } else if same_text(tag, "tool_result") {
            Some(MessageType::ToolResult)
        } else {
            None
        }
    }
}

fn body_from(kind: MessageType, json: &Json, meta: MessageMeta) -> (r: Result<Message, Error>)
    ensures
        message_result(r) == decode_body(kind, json@, meta@),
{
    match kind {
        MessageType::Init => Ok(Message::Init { meta }),
        MessageType::User => match required_text(json, "content") {
            Ok(content) => Ok(Message::User { content, meta }),
            Err(e) => Err(e),
        },
        MessageType::Assistant => match required_text(json, "content") {
            Ok(content) => Ok(Message::Assistant { content, meta }),
            Err(e) => Err(e),
        },
        MessageType::Result => match required_stats(json) {
            Ok(stats) => Ok(Message::Result { meta, stats }),
            Err(e) => Err(e),
        },
        MessageType::System => match required_text(json, "content") {
            Ok(content) => Ok(Message::System { content, meta }),
            Err(e) => Err(e),
        },
        MessageType::Tool => match required_text(json, "name") {
            Err(e) => Err(e),
            Ok(name) => match required_value(json, "parameters") {
                Ok(parameters) => Ok(Message::Tool { name, parameters, meta }),
                Err(e) => Err(e),
            },
        },
        MessageType::ToolResult => match required_text(json, "tool_name") {
            Err(e) => Err(e),
            Ok(tool_name) => match required_value(json, "result") {
                Ok(result) => Ok(Message::ToolResult { tool_name, result, meta }),
                Err(e) => Err(e),
            },
        },
    }
}

impl Message {
    /// Reads a message out of its JSON form, as [`decode_message`] defines
    /// it.
    pub fn from_json(json: &Json) -> (r: Result<Message, Error>)
        ensures
            message_result(r) == decode_message(json@),
    {
        if !json.is_object() {
            return Err(not_an_object_error());
        }
        let kind = match json.get_str("type") {
            None => {
                return Err(invalid_field_error("type"));
            },
            Some(tag) => match MessageType::from_tag(tag) {
                Some(kind) => kind,
                None => {
                    return Err(invalid_field_error("type"));
                },
            },
        };
        match MessageMeta::from_json(json) {
            Err(e) => Err(e),
            Ok(meta) => body_from(kind, json, meta),
        }
    }
}

/// Token counts are read back as they were written.
pub proof fn lemma_usage_round_trip(u: TokenUsage)
    ensures
        usage_of(usage_value(u)) == Some(u),
{
    let members = usage_value(u)->Object_0;
    reveal_strlit("input");
    reveal_strlit("output");
    reveal_strlit("total");
    assert("input"@ != "output"@) by {
        assert("input"@.len() != "output"@.len());
    }
    assert("total"@ != "output"@) by {
        assert("total"@.len() != "output"@.len());
    }
    assert("input"@ != "total"@) by {
        assert("input"@[0] != "total"@[0]);
    }
    lemma_get_at(members, 0, "input"@);
    lemma_get_at(members, 1, "output"@);
    lemma_get_at(members, 2, "total"@);
}

/// A point in time whose nanoseconds stay below one second is read back as
/// it was written.
pub proof fn lemma_timestamp_round_trip(t: Timestamp)
    requires
        t.wf(),
    ensures
        timestamp_of(timestamp_value(t)) == Some(t),
{
    let members = timestamp_value(t)->Object_0;
    reveal_strlit("secs_since_epoch");
    reveal_strlit("nanos_since_epoch");
    assert("secs_since_epoch"@ != "nanos_since_epoch"@) by {
        assert("secs_since_epoch"@.len() != "nanos_since_epoch"@.len());
    }
    lemma_get_at(members, 0, "secs_since_epoch"@);
    lemma_get_at(members, 1, "nanos_since_epoch"@);
    let nanos = t.nanos_since_epoch as u64;
    assert(NANOS_PER_SEC as u64 == 1_000_000_000u64);
    assert(nanos / 1_000_000_000u64 == 0);
    assert(nanos % 1_000_000_000u64 == nanos);
    assert(timestamp_value(t).unsigned_field("secs_since_epoch"@) == Some(t.secs_since_epoch));
    assert(timestamp_value(t).unsigned_field("nanos_since_epoch"@) == Some(nanos));
}

/// The totals of a conversation are read back as they were written, where
/// the total cost is a number that JSON can write.
pub proof fn lemma_stats_round_trip(s: ConversationStats)
    requires
        s.total_cost_usd.writable(),
    ensures
        stats_of(stats_value(s)) == Some(s),
{
    let members = stats_value(s)->Object_0;
    reveal_strlit("total_messages");
    reveal_strlit("total_cost_usd");
    reveal_strlit("total_duration_ms");
    reveal_strlit("total_tokens");
    assert("total_messages"@ != "total_cost_usd"@) by {
        assert("total_messages"@[6] != "total_cost_usd"@[6]);
    }
    assert("total_messages"@ != "total_duration_ms"@) by {
        assert("total_messages"@.len() != "total_duration_ms"@.len());
    }
    assert("total_messages"@ != "total_tokens"@) by {
        assert("total_messages"@.len() != "total_tokens"@.len());
    }
    assert("total_cost_usd"@ != "total_duration_ms"@) by {
        assert("total_cost_usd"@.len() != "total_duration_ms"@.len());
    }
    assert("total_cost_usd"@ != "total_tokens"@) by {
        assert("total_cost_usd"@.len() != "total_tokens"@.len());
    }
    assert("total_duration_ms"@ != "total_tokens"@) by {
        assert("total_duration_ms"@.len() != "total_tokens"@.len());
    }
    lemma_get_at(members, 0, "total_messages"@);
    lemma_get_at(members, 1, "total_cost_usd"@);
    lemma_get_at(members, 2, "total_duration_ms"@);
    lemma_get_at(members, 3, "total_tokens"@);
    lemma_usage_round_trip(s.total_tokens);
}

/// The keys of the members that the metadata adds.
pub open spec fn is_meta_key(key: Seq<char>) -> bool {
    key == "session_id"@ || key == "timestamp"@ || key == "cost_usd"@ || key == "duration_ms"@
        || key == "tokens_used"@
}

proof fn lemma_meta_keys_differ()
    ensures
        "session_id"@ != "timestamp"@,
        "session_id"@ != "cost_usd"@,
        "session_id"@ != "duration_ms"@,
        "session_id"@ != "tokens_used"@,
        "timestamp"@ != "cost_usd"@,
        "timestamp"@ != "duration_ms"@,
        "timestamp"@ != "tokens_used"@,
        "cost_usd"@ != "duration_ms"@,
        "cost_usd"@ != "tokens_used"@,
        "duration_ms"@ != "tokens_used"@,
{
    reveal_strlit("session_id");
    reveal_strlit("timestamp");
    reveal_strlit("cost_usd");
    reveal_strlit("duration_ms");
    reveal_strlit("tokens_used");
    assert("session_id"@.len() == 10);
    assert("timestamp"@.len() == 9);
    assert("cost_usd"@.len() == 8);
    assert("duration_ms"@.len() == 11);
    assert("tokens_used"@.len() == 11);
    assert("duration_ms"@[0] != "tokens_used"@[0]);
}

proof fn lemma_head_keys_are_no_meta_keys()
    ensures
        !is_meta_key("type"@),
        !is_meta_key("content"@),
        !is_meta_key("stats"@),
        !is_meta_key("name"@),
        !is_meta_key("parameters"@),
        !is_meta_key("tool_name"@),
        !is_meta_key("result"@),
{
    reveal_strlit("session_id");
    reveal_strlit("timestamp");
    reveal_strlit("cost_usd");
    reveal_strlit("duration_ms");
    reveal_strlit("tokens_used");
    reveal_strlit("type");
    reveal_strlit("content");
    reveal_strlit("stats");
    reveal_strlit("name");
    reveal_strlit("parameters");
    reveal_strlit("tool_name");
    reveal_strlit("result");
    assert("session_id"@.len() == 10);
    assert("timestamp"@.len() == 9);
    assert("cost_usd"@.len() == 8);
    assert("duration_ms"@.len() == 11);
    assert("tokens_used"@.len() == 11);
    assert("type"@.len() == 4);
    assert("content"@.len() == 7);
    assert("stats"@.len() == 5);
    assert("name"@.len() == 4);
    assert("parameters"@.len() == 10);
    assert("tool_name"@.len() == 9);
    assert("result"@.len() == 6);
    assert("parameters"@[0] != "session_id"@[0]);
    assert("tool_name"@[1] != "timestamp"@[1]);
}

proof fn lemma_head_keys_differ()
    ensures
        "type"@ != "content"@,
        "type"@ != "stats"@,
        "type"@ != "name"@,
        "type"@ != "parameters"@,
        "type"@ != "tool_name"@,
        "type"@ != "result"@,
        "name"@ != "parameters"@,
        "tool_name"@ != "result"@,
{
    reveal_strlit("type");
    reveal_strlit("content");
    reveal_strlit("stats");
    reveal_strlit("name");
    reveal_strlit("parameters");
    reveal_strlit("tool_name");
    reveal_strlit("result");
    assert("type"@.len() == 4);
    assert("content"@.len() == 7);
    assert("stats"@.len() == 5);
    assert("name"@.len() == 4);
    assert("parameters"@.len() == 10);
    assert("tool_name"@.len() == 9);
    assert("result"@.len() == 6);
    assert("type"@[0] != "name"@[0]);
}

/// Every kind is found again by its tag.
pub proof fn lemma_tag_names_kind(kind: MessageType)
    ensures
        kind_of_tag(tag_name(kind)) == Some(kind),
{
    reveal_strlit("init");
    reveal_strlit("user");
    reveal_strlit("assistant");
    reveal_strlit("result");
    reveal_strlit("system");
    reveal_strlit("tool");
    reveal_strlit("tool_result");
    assert("init"@.len() == 4);
    assert("user"@.len() == 4);
    assert("assistant"@.len() == 9);
    assert("result"@.len() == 6);
    assert("system"@.len() == 6);
    assert("tool"@.len() == 4);
    assert("tool_result"@.len() == 11);
    assert("init"@[0] != "user"@[0]);
    assert("init"@[0] != "tool"@[0]);
    assert("user"@[0] != "tool"@[0]);
    assert("result"@[0] != "system"@[0]);
}

/// The metadata is read back as it was written, whatever members stand
/// before it, as long as none of them has one of its keys.
pub proof fn lemma_meta_round_trip(head: Entries<JsonView>, meta: MetaView)
    requires
        meta.wf(),
        forall|j: int| 0 <= j < head.len() ==> !is_meta_key((#[trigger] head[j]).0),
    ensures
        decode_meta(JsonView::Object(head + meta_members(meta))) == Ok::<MetaView, ErrorView>(
            meta,
        ),
{
    let own = meta_members(meta);
    let j = JsonView::Object(head + own);
    lemma_meta_keys_differ();
    lemma_get_skips(head, own, "session_id"@);
    lemma_get_skips(head, own, "timestamp"@);
    lemma_get_skips(head, own, "cost_usd"@);
    lemma_get_skips(head, own, "duration_ms"@);
    lemma_get_skips(head, own, "tokens_used"@);
    lemma_get_at(own, 0, "session_id"@);
    lemma_get_at(own, 1, "timestamp"@);
    lemma_get_at(own, 2, "cost_usd"@);
    lemma_get_at(own, 3, "duration_ms"@);
    lemma_get_at(own, 4, "tokens_used"@);
    assert(j.text_field("session_id"@) == Some(meta.session_id));
    assert(timestamp_field(j) == Some(meta.timestamp)) by {
        if let Some(t) = meta.timestamp {
            lemma_timestamp_round_trip(t);
        }
    }
    assert(j.optional_number_field("cost_usd"@) == Some(meta.cost_usd));
    assert(j.optional_unsigned_field("duration_ms"@) == Some(meta.duration_ms));
    assert(usage_field(j) == Some(meta.tokens_used)) by {
        if let Some(u) = meta.tokens_used {
            lemma_usage_round_trip(u);
        }
    }
}

/// Writing a message and reading it again gives the message back: the same
/// kind with the same fields. This holds of every message whose numbers JSON
/// can write and whose timestamp keeps its nanoseconds below one second.
pub proof fn lemma_message_round_trip(m: MessageView)
    requires
        m.wf(),
    ensures
        decode_message(encode_message(m)) == Ok::<MessageView, ErrorView>(m),
{
    let head = head_members(m);
    let own = meta_members(m.meta());
    let j = encode_message(m);
    let kind = m.message_type();
    lemma_head_keys_are_no_meta_keys();
    lemma_head_keys_differ();
    lemma_tag_names_kind(kind);
    assert(head[0] == (("type"@, JsonView::String(tag_name(kind)))));
    lemma_get_at(head, 0, "type"@);
    lemma_get_front(head, own, "type"@);
    assert(j.text_field("type"@) == Some(tag_name(kind)));
    lemma_meta_round_trip(head, m.meta());
    match m {
        MessageView::Init { .. } => {},
        MessageView::User { content, .. } => {
            lemma_get_at(head, 1, "content"@);
            lemma_get_front(head, own, "content"@);
        },
        MessageView::Assistant { content, .. } => {
            lemma_get_at(head, 1, "content"@);
            lemma_get_front(head, own, "content"@);
        },
        MessageView::Result { stats, .. } => {
            lemma_get_at(head, 1, "stats"@);
            lemma_get_front(head, own, "stats"@);
            lemma_stats_round_trip(stats);
        },
        MessageView::System { content, .. } => {
            lemma_get_at(head, 1, "content"@);
            lemma_get_front(head, own, "content"@);
        },
        MessageView::Tool { name, parameters, .. } => {
            lemma_get_at(head, 1, "name"@);
            lemma_get_front(head, own, "name"@);
            lemma_get_at(head, 2, "parameters"@);
            lemma_get_front(head, own, "parameters"@);
        },
        MessageView::ToolResult { tool_name, result, .. } => {
            lemma_get_at(head, 1, "tool_name"@);
            lemma_get_front(head, own, "tool_name"@);
            lemma_get_at(head, 2, "result"@);
            lemma_get_front(head, own, "result"@);
        },
    }
}


} // verus!
