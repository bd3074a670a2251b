//! Messages handed to a consumer one at a time, and the reading of single
//! lines into messages.

use vstd::prelude::*;
use vstd::string::StringExecFns;
use crate::codec::{decode_message, message_result};
use crate::config::StreamFormat;
use crate::error::{Error, ErrorView};
use crate::json::{json_document, Json};
use crate::message::{Message, MessageMeta, MessageView, MetaView, Timestamp};
use crate::process::text_result;
use crate::text::{blank, is_blank};

verus! {

/// One item of a stream: a message, or the failure that took its place.
pub type ItemView = Result<MessageView, ErrorView>;

/// The views of the items of a stream.
pub open spec fn item_views(items: Seq<Result<Message, Error>>) -> Seq<ItemView> {
    Seq::new(items.len(), |i: int| message_result(items[i]))
}

/// Whether an item is a `Result` message, which ends a conversation.
pub open spec fn is_final_item(item: ItemView) -> bool {
    item matches Ok(MessageView::Result { .. })
}

/// What is left of a stream once its first item is taken: nothing after a
/// `Result` message, and the rest otherwise.
pub open spec fn after_first(items: Seq<ItemView>) -> Seq<ItemView> {
    if is_final_item(items.first()) {
        Seq::empty()
    } else {
        items.drop_first()
    }
}

/// The text that draining `items` adds to `collected`: the content of every
/// `Assistant` message up to the first `Result` message or the end. The
/// first failure on the way is the outcome instead.
pub open spec fn collect_into(collected: Seq<char>, items: Seq<ItemView>) -> Result<
    Seq<char>,
    ErrorView,
>
    decreases items.len(),
{
    if items.len() == 0 {
        Ok(collected)
    } else {
        match items.first() {
            Err(e) => Err(e),
            Ok(MessageView::Result { .. }) => Ok(collected),
            Ok(MessageView::Assistant { content, .. }) => collect_into(
                collected + content,
                items.drop_first(),
            ),
            Ok(_) => collect_into(collected, items.drop_first()),
        }
    }
}

/// The full response of a stream.
pub open spec fn full_response(items: Seq<ItemView>) -> Result<Seq<char>, ErrorView> {
    collect_into(Seq::empty(), items)
}

/// The session that a synthetic stream message is filed under.
pub open spec fn stream_session() -> Seq<char> {
    "stream-session"@
}

/// The session that a plain-text message is filed under.
pub open spec fn text_session() -> Seq<char> {
    "text-response"@
}

/// An `Assistant` message that carries `content`, made at `now` for the
/// session `session`, with nothing else known.
pub open spec fn assistant_message(content: Seq<char>, session: Seq<char>, now: Timestamp)
    -> MessageView {
    MessageView::Assistant {
        content,
        meta: MetaView {
            session_id: session,
            timestamp: Some(now),
            cost_usd: None,
            duration_ms: None,
            tokens_used: None,
        },
    }
}

/// The one item that a finished request puts on its stream: the whole
/// answer as a single `Assistant` message, or the failure.
pub open spec fn outcome_item(outcome: Result<Seq<char>, ErrorView>, now: Timestamp) -> ItemView {
    match outcome {
        Ok(content) => Ok(assistant_message(content, stream_session(), now)),
        Err(e) => Err(e),
    }
}

fn make_assistant(content: String, session: &str, now: Timestamp) -> (r: Message)
    ensures
        r@ == assistant_message(content@, session@, now),
{
    Message::Assistant {
        content,
        meta: MessageMeta {
            session_id: session.to_owned(),
            timestamp: Some(now),
            cost_usd: None,
            duration_ms: None,
            tokens_used: None,
        },
    }
}

/// An ordered, finite sequence of messages that is consumed once, front to
/// back. It ends after a `Result` message or when nothing is left.
pub struct MessageStream {
    /// What is still to come, last item first.
    pending: Vec<Result<Message, Error>>,
}

impl MessageStream {
    /// What is still to come, in the order in which it will come.
    pub closed spec fn remaining(&self) -> Seq<ItemView> {
        item_views(self.pending@).reverse()
    }

    /// A stream of `items`, in their order.
    pub fn new(items: Vec<Result<Message, Error>>, _format: StreamFormat) -> (r: MessageStream)
        ensures
            r.remaining() == item_views(items@),
    {
        let mut items = items;
        let ghost all = item_views(items@);
        let mut pending: Vec<Result<Message, Error>> = Vec::new();
        assert(item_views(pending@) =~= all.reverse().take(0));
        while items.len() > 0
            invariant
                items.len() + pending.len() == all.len(),
                item_views(items@) == all.take(items.len() as int),
                item_views(pending@) == all.reverse().take(all.len() - items.len()),
            decreases items.len(),
        {
            let ghost before = items@;
            let ghost done = pending@;
            let item = items.pop().unwrap();
            proof {
                let n = before.len() as int;
                assert(message_result(item) == item_views(before)[n - 1]);
                assert(item_views(before)[n - 1] == all[n - 1]);
                assert(item_views(items@) =~= all.take(n - 1));
                let grown = item_views(done.push(item));
                let wanted = all.reverse().take(all.len() - n + 1);
                assert(all.reverse().len() == all.len());
                assert(grown.len() == all.len() - n + 1);
                assert(wanted.len() == all.len() - n + 1);
                assert forall|k: int| 0 <= k < grown.len() implies grown[k] == wanted[k] by {
                    if k < all.len() - n {
                        assert(grown[k] == item_views(done)[k]);
                        assert(item_views(done)[k] == all.reverse().take(all.len() - n)[k]);
                    } else {
                        assert(all.reverse()[k] == all[all.len() - 1 - k]);
                    }
                }
                assert(grown =~= wanted);
            }
            pending.push(item);
        }
        proof {
            assert(all.reverse().take(all.len() as int) =~= all.reverse());
            assert(all.reverse().reverse() =~= all);
        }
        MessageStream { pending }
    }

    /// The stream of a request that has been run to its end: one item, the
    /// whole answer as an `Assistant` message or the failure. No `Init` and
    /// no `Result` message is made up.
    pub fn from_outcome(outcome: Result<String, Error>, now: Timestamp, format: StreamFormat) -> (r:
        MessageStream)
        ensures
            r.remaining() == seq![outcome_item(text_result(outcome), now)],
    {
        let item = match outcome {
            Ok(content) => Ok(make_assistant(content, "stream-session", now)),
            Err(e) => Err(e),
        };
        let mut items: Vec<Result<Message, Error>> = Vec::new();
        items.push(item);
        assert(item_views(items@) =~= seq![outcome_item(text_result(outcome), now)]);
        MessageStream::new(items, format)
    }

    /// Takes the next item off the stream. After a `Result` message, and
    /// when nothing is left, there is no next item, now or later.
    pub fn next(&mut self) -> (r: Option<Result<Message, Error>>)
        ensures
            match r {
                Some(item) => old(self).remaining().len() > 0 && message_result(item) == old(
                    self,
                ).remaining().first() && final(self).remaining() == after_first(
                    old(self).remaining(),
                ),
                None => old(self).remaining().len() == 0 && final(self).remaining().len() == 0,
            },
    {
        let ghost before = self.pending@;
        match self.pending.pop() {
            None => {
                assert(item_views(self.pending@).reverse() =~= Seq::<ItemView>::empty());
                None
            },
            Some(item) => {
                let ends = match &item {
                    Ok(Message::Result { .. }) => true,
                    _ => false,
                };
                proof {
                    let n = before.len() as int;
                    let views = item_views(before);
                    assert(views.reverse().first() == views[n - 1]);
                    assert(item_views(self.pending@) =~= views.take(n - 1));
                    assert(views.take(n - 1).reverse() =~= views.reverse().drop_first());
                }
                if ends {
                    self.pending = Vec::new();
                    assert(item_views(self.pending@).reverse() =~= Seq::<ItemView>::empty());
                }
                Some(item)
            },
        }
    }

    /// Drains the stream and joins the content of its `Assistant` messages,
    /// up to the first `Result` message or the end of the stream. The first
    /// failure on the way is returned instead.
    pub fn collect_full_response(self) -> (r: Result<String, Error>)
        ensures
            text_result(r) == full_response(self.remaining()),
    {
        let mut stream = self;
        let mut response = String::new();
        loop
            invariant
                collect_into(response@, stream.remaining()) == full_response(self.remaining()),
            decreases stream.remaining().len(),
        {
            let ghost left = stream.remaining();
            match stream.next() {
                None => {
                    return Ok(response);
                },
                Some(Err(e)) => {
                    return Err(e);
                },
                Some(Ok(message)) => {
                    match message {
                        Message::Assistant { content, .. } => {
                            response.append(content.as_str());
                        },
                        Message::Result { .. } => {
                            return Ok(response);
                        },
                        _ => {},
                    }
                },
            }
        }
    }
}

/// A stream that holds the whole answer of a finished request gives that
/// answer back when it is collected, and a failed request gives its failure.
pub proof fn lemma_collect_outcome(outcome: Result<Seq<char>, ErrorView>, now: Timestamp)
    ensures
        full_response(seq![outcome_item(outcome, now)]) == outcome,
{
    let items = seq![outcome_item(outcome, now)];
    reveal_with_fuel(collect_into, 3);
    assert(items.drop_first() =~= Seq::<ItemView>::empty());
    match outcome {
        Ok(content) => {
            assert(Seq::<char>::empty() + content =~= content);
        },
        Err(_) => {},
    }
}

/// What a line holds for a parser of the given format: nothing in plain
/// text and on a blank line, and otherwise the message that the line's JSON
/// stands for. A line that is no JSON, or JSON that is no message, is a
/// serialization error.
pub open spec fn line_message(format: StreamFormat, line: Seq<char>) -> Result<
    Option<MessageView>,
    ErrorView,
> {
    if format == StreamFormat::Text || is_blank(line) {
        Ok(None)
    } else {
        match json_document(line) {
            Err(message) => Err(ErrorView::SerializationError(message)),
            Ok(document) => document_message(document),
        }
    }
}

/// The message that a decoded line stands for.
pub open spec fn document_message(document: crate::json::JsonView) -> Result<
    Option<MessageView>,
    ErrorView,
> {
    match decode_message(document) {
        Ok(m) => Ok(Some(m)),
        Err(e) => Err(e),
    }
}

/// The view of a line's reading.
pub open spec fn line_result(r: Result<Option<Message>, Error>) -> Result<
    Option<MessageView>,
    ErrorView,
> {
    match r {
        Ok(Some(m)) => Ok(Some(m@)),
        Ok(None) => Ok(None),
        Err(e) => Err(e@),
    }
}

/// Reads single lines of output into messages.
pub struct MessageParser {
    format: StreamFormat,
}

impl MessageParser {
    /// The format that the parser reads.
    pub closed spec fn spec_format(&self) -> StreamFormat {
        self.format
    }

    pub fn new(format: StreamFormat) -> (r: Self)
        ensures
            r.spec_format() == format,
    {
        MessageParser { format }
    }

    /// The message that a decoded line stands for.
    pub fn message_from_document(document: &Json) -> (r: Result<Option<Message>, Error>)
        ensures
            line_result(r) == document_message(document@),
    {
        match Message::from_json(document) {
            Ok(m) => Ok(Some(m)),
            Err(e) => Err(e),
        }
    }

    /// Reads one line, as [`line_message`] defines it.
    pub fn parse_line(&self, line: &str) -> (r: Result<Option<Message>, Error>)
        ensures
            line_result(r) == line_message(self.spec_format(), line@),
    {
        match self.format {
            StreamFormat::Text => Ok(None),
            _ => {
                if blank(line) {
                    return Ok(None);
                }
                match Json::parse(line) {
                    Ok(document) => Self::message_from_document(&document),
                    Err(message) => Err(Error::SerializationError(message)),
                }
            },
        }
    }

    /// Wraps plain text into an `Assistant` message made at `now`.
    pub fn parse_text_response(&self, text: &str, now: Timestamp) -> (r: Message)
        ensures
            r@ == assistant_message(text@, text_session(), now),
    {
        make_assistant(text.to_owned(), "text-response", now)
    }
}

} // verus!
