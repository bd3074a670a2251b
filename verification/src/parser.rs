//! From the raw output of the binary to a response, in each of the three
//! formats. The format is the configured one; it is never guessed from the
//! output.

use vstd::prelude::*;
use vstd::string::StringExecFns;
use crate::config::StreamFormat;
use crate::error::{Error, ErrorView};
use crate::json::{items_view, json_document, lemma_array_view, Json, JsonView};
use crate::text::{blank, is_blank, lines_of, split_lines, same_text, texts, trim_owned, trimmed};
use crate::types::{
    decode_cli_response,
    first_invalid_field,
    lemma_no_metadata_without_object,
    metadata_of,
    ClaudeCliResponse,
    ClaudeResponse,
    ResponseView,
};

verus! {

/// The view of a parser's outcome.
pub open spec fn response_result(r: Result<ClaudeResponse, Error>) -> Result<
    ResponseView,
    ErrorView,
> {
    match r {
        Ok(v) => Ok(v@),
        Err(e) => Err(e@),
    }
}

/// Plain text: the trimmed output is the whole content; there is neither a
/// raw payload nor metadata.
pub open spec fn text_response(raw: Seq<char>) -> ResponseView {
    ResponseView { content: trimmed(raw), raw_json: None, metadata: None }
}

/// One decoded document: it has to match the schema; the content is its
/// `result`, the raw payload is the document itself, and the metadata is
/// what the document holds.
pub open spec fn document_response(document: JsonView) -> Result<ResponseView, ErrorView> {
    match decode_cli_response(document) {
        Ok(cli) => Ok(
            ResponseView {
                content: cli.result,
                raw_json: Some(document),
                metadata: metadata_of(document),
            },
        ),
        Err(e) => Err(e),
    }
}

/// The `json` format: the whole output is one document. Text that is no
/// JSON fails with the parser's message.
pub open spec fn json_response(raw: Seq<char>) -> Result<ResponseView, ErrorView> {
    match json_document(raw) {
        Ok(document) => document_response(document),
        Err(message) => Err(ErrorView::SerializationError(message)),
    }
}

/// The text of one content block: its `text` member where its `type` is
/// `"text"` and the member is a string, and nothing otherwise.
pub open spec fn block_text(block: JsonView) -> Seq<char> {
    if block.text_field("type"@) == Some("text"@) {
        match block.text_field("text"@) {
            Some(t) => t,
            None => Seq::empty(),
        }
    } else {
        Seq::empty()
    }
}

/// The texts of the blocks, one after the other.
pub open spec fn blocks_text(blocks: Seq<JsonView>) -> Seq<char>
    decreases blocks.len(),
{
    if blocks.len() == 0 {
        Seq::empty()
    } else {
        blocks_text(blocks.drop_last()) + block_text(blocks.last())
    }
}

/// The text that one event contributes: the text of the blocks under
/// `message.content` where the event's `type` is `"assistant"` and that
/// member is an array, and nothing otherwise.
pub open spec fn event_text(event: JsonView) -> Seq<char> {
    if event.text_field("type"@) == Some("assistant"@) {
        match event.field("message"@) {
            Some(message) => match message.field("content"@) {
                Some(JsonView::Array(blocks)) => blocks_text(blocks),
                _ => Seq::empty(),
            },
            None => Seq::empty(),
        }
    } else {
        Seq::empty()
    }
}

/// The texts of the events, one after the other.
pub open spec fn events_text(events: Seq<JsonView>) -> Seq<char>
    decreases events.len(),
{
    if events.len() == 0 {
        Seq::empty()
    } else {
        events_text(events.drop_last()) + event_text(events.last())
    }
}

/// The response for a sequence of decoded events: the content is their
/// text, the raw payload is the array of all of them in order. An array has
/// no session identifier, so there is no metadata.
pub open spec fn events_response(events: Seq<JsonView>) -> ResponseView {
    ResponseView {
        content: events_text(events),
        raw_json: Some(JsonView::Array(events)),
        metadata: None,
    }
}

/// The events that the lines hold, in order. A blank line holds none, and
/// neither does a line that is no JSON: such a line is passed over.
pub open spec fn line_events(lines: Seq<Seq<char>>) -> Seq<JsonView>
    decreases lines.len(),
{
    if lines.len() == 0 {
        Seq::empty()
    } else {
        let before = line_events(lines.drop_last());
        if is_blank(lines.last()) {
            before
        } else {
            match json_document(lines.last()) {
                Ok(event) => before.push(event),
                Err(_) => before,
            }
        }
    }
}

/// The `stream-json` format: one event per line.
pub open spec fn stream_response(raw: Seq<char>) -> ResponseView {
    events_response(line_events(lines_of(raw)))
}

/// The response that `raw` stands for in the given format.
pub open spec fn response_of(format: StreamFormat, raw: Seq<char>) -> Result<
    ResponseView,
    ErrorView,
> {
    match format {
        StreamFormat::Text => Ok(text_response(raw)),
        StreamFormat::Json => json_response(raw),
        StreamFormat::StreamJson => Ok(stream_response(raw)),
    }
}

/// Plain text and the event stream never fail.
pub proof fn lemma_lenient_formats_succeed(format: StreamFormat, raw: Seq<char>)
    requires
        format != StreamFormat::Json,
    ensures
        response_of(format, raw) is Ok,
{
}

/// In the `json` format, output that is no JSON, that is no object, or that
/// lacks a member of the schema fails with a serialization error; and the
/// format fails in no other case and in no other way.
pub proof fn lemma_json_is_strict(raw: Seq<char>)
    ensures
        json_response(raw) is Err <==> (json_document(raw) matches Ok(document) ==> !(document
            is Object) || first_invalid_field(document) is Some),
        json_response(raw) matches Err(e) ==> e is SerializationError,
{
}

/// Every line of the stream adds at most one event, and only a line that
/// is not blank and is JSON adds one.
pub proof fn lemma_line_events_step(lines: Seq<Seq<char>>, line: Seq<char>)
    ensures
        line_events(lines.push(line)) == (if !is_blank(line) && json_document(line) is Ok {
            line_events(lines).push(json_document(line)->Ok_0)
        } else {
            line_events(lines)
        }),
{
    assert(lines.push(line).drop_last() =~= lines);
}

/// The response for plain text.
pub fn parse_text(raw: &str) -> (r: ClaudeResponse)
    ensures
        r@ == text_response(raw@),
{
    ClaudeResponse::text(trim_owned(raw))
}

/// The response for one decoded document.
pub fn response_from_document(document: Json) -> (r: Result<ClaudeResponse, Error>)
    ensures
        response_result(r) == document_response(document@),
{
    match ClaudeCliResponse::from_json(&document) {
        Ok(cli) => Ok(ClaudeResponse::with_json(cli.result, document)),
        Err(e) => Err(e),
    }
}

/// The response for output in the `json` format.
pub fn parse_json(raw: &str) -> (r: Result<ClaudeResponse, Error>)
    ensures
        response_result(r) == json_response(raw@),
{
    match Json::parse(raw) {
        Ok(document) => response_from_document(document),
        Err(message) => Err(Error::SerializationError(message)),
    }
}

fn append_block_text(out: &mut String, block: &Json)
    ensures
        final(out)@ == old(out)@ + block_text(block@),
{
    let is_text = match block.get_str("type") {
        Some(kind) => same_text(kind, "text"),
        None => false,
    };
    if is_text {
        match block.get_str("text") {
            Some(t) => {
                out.append(t);
            },
            None => {},
        }
    }
    assert(out@ =~= old(out)@ + block_text(block@));
}

fn append_event_text(out: &mut String, event: &Json)
    ensures
        final(out)@ == old(out)@ + event_text(event@),
{
    let is_assistant = match event.get_str("type") {
        Some(kind) => same_text(kind, "assistant"),
        None => false,
    };
    if !is_assistant {
        assert(out@ =~= old(out)@ + event_text(event@));
        return ;
    }
    let content = match event.get("message") {
        Some(message) => message.get("content"),
        None => None,
    };
    let blocks = match content {
        Some(c) => c.as_array(),
        None => None,
    };
    match blocks {
        Some(blocks) => {
            let ghost all = items_view(blocks@);
            let mut i: usize = 0;
            assert(all.take(0) =~= Seq::<JsonView>::empty());
            assert(out@ =~= old(out)@ + blocks_text(all.take(0)));
            while i < blocks.len()
                invariant
                    i <= blocks.len(),
                    all == items_view(blocks@),
                    out@ == old(out)@ + blocks_text(all.take(i as int)),
                decreases blocks.len() - i,
            {
                let ghost before = out@;
                append_block_text(out, &blocks[i]);
                proof {
                    let next = all.take(i + 1);
                    assert(next.drop_last() =~= all.take(i as int));
                    assert(next.last() == blocks@[i as int]@);
                    assert(out@ =~= old(out)@ + blocks_text(next));
                }
                i += 1;
            }
            assert(all.take(blocks.len() as int) =~= all);
        },
        None => {
            assert(out@ =~= old(out)@ + event_text(event@));
        },
    }
}

/// The response for a sequence of decoded events.
pub fn response_from_events(events: Vec<Json>) -> (r: ClaudeResponse)
    ensures
        r@ == events_response(items_view(events@)),
{
    let mut content = String::new();
    let ghost all = items_view(events@);
    let mut i: usize = 0;
    assert(all.take(0) =~= Seq::<JsonView>::empty());
    while i < events.len()
        invariant
            i <= events.len(),
            all == items_view(events@),
            content@ == events_text(all.take(i as int)),
        decreases events.len() - i,
    {
        append_event_text(&mut content, &events[i]);
        proof {
            let next = all.take(i + 1);
            assert(next.drop_last() =~= all.take(i as int));
            assert(next.last() == events@[i as int]@);
        }
        i += 1;
    }
    proof {
        assert(all.take(events.len() as int) =~= all);
        lemma_array_view(events);
        lemma_no_metadata_without_object(JsonView::Array(all));
    }
    ClaudeResponse::with_json(content, Json::Array(events))
}

/// The events that the lines of a stream hold.
pub fn events_from_lines(lines: &Vec<String>) -> (r: Vec<Json>)
    ensures
        items_view(r@) == line_events(texts(lines@)),
{
    let mut events: Vec<Json> = Vec::new();
    let ghost all = texts(lines@);
    let mut i: usize = 0;
    assert(all.take(0) =~= Seq::<Seq<char>>::empty());
    assert(items_view(events@) =~= Seq::<JsonView>::empty());
    while i < lines.len()
        invariant
            i <= lines.len(),
            all == texts(lines@),
            items_view(events@) == line_events(all.take(i as int)),
        decreases lines.len() - i,
    {
        let line = lines[i].as_str();
        let ghost before = items_view(events@);
        proof {
            let next = all.take(i + 1);
            assert(next.drop_last() =~= all.take(i as int));
            assert(next.last() == line@);
        }
        if !blank(line) {
            match Json::parse(line) {
                Ok(event) => {
                    events.push(event);
                    assert(items_view(events@) =~= before.push(event@));
                },
                Err(_) => {},
            }
        }
        i += 1;
    }
    assert(all.take(lines.len() as int) =~= all);
    events
}

/// The response for output in the `stream-json` format.
pub fn parse_stream_json(raw: &str) -> (r: ClaudeResponse)
    ensures
        r@ == stream_response(raw@),
{
    let lines = split_lines(raw);
    let events = events_from_lines(&lines);
    response_from_events(events)
}

/// Turns the raw output of the binary into a response, in the configured
/// format.
pub fn parse_response(format: StreamFormat, raw: &str) -> (r: Result<ClaudeResponse, Error>)
    ensures
        response_result(r) == response_of(format, raw@),
{
    match format {
        StreamFormat::Text => Ok(parse_text(raw)),
        StreamFormat::Json => parse_json(raw),
        StreamFormat::StreamJson => Ok(parse_stream_json(raw)),
    }
}

} // verus!
