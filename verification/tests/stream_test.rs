use clau::{
    Client, ConversationStats, Error, Message, MessageMeta, MessageStream, MessageType,
    StreamFormat, Timestamp,
};
use clau::message::TokenUsage;
use clau::JsonNumber;

fn meta() -> MessageMeta {
    MessageMeta {
        session_id: "s".to_string(),
        timestamp: None,
        cost_usd: None,
        duration_ms: None,
        tokens_used: None,
    }
}

fn assistant(text: &str) -> Result<Message, Error> {
    Ok(Message::Assistant {
        content: text.to_string(),
        meta: meta(),
    })
}

fn user(text: &str) -> Result<Message, Error> {
    Ok(Message::User {
        content: text.to_string(),
        meta: meta(),
    })
}

fn result() -> Result<Message, Error> {
    Ok(Message::Result {
        meta: meta(),
        stats: ConversationStats {
            total_messages: 1,
            total_cost_usd: JsonNumber::PosInt(0),
            total_duration_ms: 1,
            total_tokens: TokenUsage {
                input: 0,
                output: 0,
                total: 0,
            },
        },
    })
}

fn stream(items: Vec<Result<Message, Error>>) -> MessageStream {
    MessageStream::new(items, StreamFormat::StreamJson)
}

#[test]
fn items_come_in_order_and_only_once() {
    let mut s = stream(vec![user("q"), assistant("a"), assistant("b")]);
    assert_eq!(s.next(), Some(user("q")));
    assert_eq!(s.next(), Some(assistant("a")));
    assert_eq!(s.next(), Some(assistant("b")));
    assert_eq!(s.next(), None);
    assert_eq!(s.next(), None);
}

#[test]
fn the_stream_ends_after_a_result_message() {
    let mut s = stream(vec![assistant("a"), result(), assistant("late")]);
    assert_eq!(s.next(), Some(assistant("a")));
    assert_eq!(s.next(), Some(result()));
    assert_eq!(s.next(), None);
    assert_eq!(s.next(), None);
}

#[test]
fn failures_are_items_and_do_not_end_the_stream() {
    let mut s = stream(vec![Err(Error::StreamClosed), assistant("a")]);
    assert_eq!(s.next(), Some(Err(Error::StreamClosed)));
    assert_eq!(s.next(), Some(assistant("a")));
    assert_eq!(s.next(), None);
}

#[test]
fn collect_joins_assistant_text() {
    let s = stream(vec![
        user("question"),
        assistant("Hello"),
        Ok(Message::System {
            content: "note".to_string(),
            meta: meta(),
        }),
        assistant(", "),
        assistant("world"),
    ]);
    assert_eq!(s.collect_full_response(), Ok("Hello, world".to_string()));
}

#[test]
fn collect_stops_at_the_first_result_message() {
    let s = stream(vec![
        assistant("kept"),
        result(),
        assistant(" dropped"),
        Err(Error::StreamClosed),
    ]);
    assert_eq!(s.collect_full_response(), Ok("kept".to_string()));
}

#[test]
fn collect_returns_the_first_failure() {
    let s = stream(vec![
        assistant("lost"),
        Err(Error::Timeout(3)),
        Err(Error::StreamClosed),
        result(),
    ]);
    assert_eq!(s.collect_full_response(), Err(Error::Timeout(3)));
}

#[test]
fn collect_of_an_empty_stream_is_empty() {
    assert_eq!(stream(Vec::new()).collect_full_response(), Ok(String::new()));
    assert_eq!(stream(vec![result()]).collect_full_response(), Ok(String::new()));
}

#[test]
fn collect_after_taking_items_covers_the_rest() {
    let mut s = stream(vec![assistant("a"), assistant("b"), assistant("c")]);
    assert_eq!(s.next(), Some(assistant("a")));
    assert_eq!(s.collect_full_response(), Ok("bc".to_string()));
}

#[test]
fn a_finished_request_gives_one_assistant_message() {
    let now = Timestamp {
        secs_since_epoch: 1_700_000_000,
        nanos_since_epoch: 42,
    };
    let mut s = MessageStream::from_outcome(Ok("the answer".to_string()), now, StreamFormat::Text);
    let first = s.next().expect("one item").expect("a message");
    assert_eq!(first.message_type(), MessageType::Assistant);
    assert_eq!(
        first,
        Message::Assistant {
            content: "the answer".to_string(),
            meta: MessageMeta {
                session_id: "stream-session".to_string(),
                timestamp: Some(now),
                cost_usd: None,
                duration_ms: None,
                tokens_used: None,
            },
        }
    );
    assert_eq!(s.next(), None);
}

#[test]
fn a_failed_request_gives_its_failure() {
    let now = Timestamp {
        secs_since_epoch: 0,
        nanos_since_epoch: 0,
    };
    let mut s = MessageStream::from_outcome(Err(Error::Timeout(30)), now, StreamFormat::Json);
    assert_eq!(s.next(), Some(Err(Error::Timeout(30))));
    assert_eq!(s.next(), None);
    let again = MessageStream::from_outcome(Err(Error::BinaryNotFound), now, StreamFormat::Json);
    assert_eq!(again.collect_full_response(), Err(Error::BinaryNotFound));
}

#[test]
fn collecting_the_stream_of_a_request_gives_its_text() {
    let now = Timestamp {
        secs_since_epoch: 1,
        nanos_since_epoch: 2,
    };
    let client = Client::builder().build();
    let s = client.query("q").stream(Ok("  padded answer \n".to_string()), now);
    assert_eq!(s.collect_full_response(), Ok("padded answer".to_string()));

    let json_client = Client::builder().stream_format(StreamFormat::Json).build();
    let failing = json_client
        .query("q")
        .format(StreamFormat::Text)
        .stream(Ok("plain".to_string()), now);
    assert!(matches!(
        failing.collect_full_response(),
        Err(Error::SerializationError(_))
    ));
}

#[test]
fn query_builder_keeps_its_settings() {
    let client = Client::builder().stream_format(StreamFormat::Json).build();
    let query = client.query("q");
    assert_eq!(query.stream_format(), StreamFormat::Json);
    let query = query
        .session(clau::SessionId::new("s"))
        .format(StreamFormat::StreamJson);
    assert_eq!(query.stream_format(), StreamFormat::StreamJson);
    assert_eq!(client.config().stream_format, StreamFormat::Json);
}
