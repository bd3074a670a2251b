use clau::message::TokenUsage;
use clau::{
    ConversationStats, Error, Json, JsonNumber, Message, MessageMeta, MessageParser, MessageType,
    StreamFormat, Timestamp,
};

fn meta(session: &str) -> MessageMeta {
    MessageMeta {
        session_id: session.to_string(),
        timestamp: None,
        cost_usd: None,
        duration_ms: None,
        tokens_used: None,
    }
}

fn full_meta() -> MessageMeta {
    MessageMeta {
        session_id: "s-1".to_string(),
        timestamp: Some(Timestamp {
            secs_since_epoch: 1_700_000_000,
            nanos_since_epoch: 999_999_999,
        }),
        cost_usd: Some(JsonNumber::Float(0.015f64.to_bits())),
        duration_ms: Some(u64::MAX),
        tokens_used: Some(TokenUsage {
            input: 1,
            output: 2,
            total: 3,
        }),
    }
}

fn every_kind() -> Vec<Message> {
    vec![
        Message::Init { meta: meta("a") },
        Message::User {
            content: "hello".to_string(),
            meta: full_meta(),
        },
        Message::Assistant {
            content: "".to_string(),
            meta: meta(""),
        },
        Message::Result {
            meta: full_meta(),
            stats: ConversationStats {
                total_messages: 4,
                total_cost_usd: JsonNumber::Float(1.25f64.to_bits()),
                total_duration_ms: 0,
                total_tokens: TokenUsage {
                    input: 10,
                    output: 20,
                    total: 30,
                },
            },
        },
        Message::System {
            content: "sys".to_string(),
            meta: meta("b"),
        },
        Message::Tool {
            name: "calc".to_string(),
            parameters: Json::Object(vec![
                (
                    "list".to_string(),
                    Json::Array(vec![Json::Null, Json::Bool(true)]),
                ),
                ("type".to_string(), Json::String("nested".to_string())),
            ]),
            meta: full_meta(),
        },
        Message::ToolResult {
            tool_name: "calc".to_string(),
            result: Json::Null,
            meta: meta("c"),
        },
    ]
}

#[test]
fn kinds_and_metadata() {
    let kinds: Vec<MessageType> = every_kind().iter().map(|m| m.message_type()).collect();
    assert_eq!(
        kinds,
        vec![
            MessageType::Init,
            MessageType::User,
            MessageType::Assistant,
            MessageType::Result,
            MessageType::System,
            MessageType::Tool,
            MessageType::ToolResult,
        ]
    );
    let sessions: Vec<String> = every_kind()
        .iter()
        .map(|m| m.meta().session_id.clone())
        .collect();
    assert_eq!(sessions, vec!["a", "s-1", "", "s-1", "b", "s-1", "c"]);
}

#[test]
fn round_trip_of_every_kind() {
    for message in every_kind() {
        let json = message.to_json();
        assert_eq!(Message::from_json(&json), Ok(message));
    }
}

#[test]
fn round_trip_through_text() {
    for message in every_kind() {
        let text = to_text(&message.to_json());
        let parser = MessageParser::new(StreamFormat::StreamJson);
        assert_eq!(parser.parse_line(&text), Ok(Some(message)));
    }
}

fn to_value(json: &Json) -> serde_json::Value {
    match json {
        Json::Null => serde_json::Value::Null,
        Json::Bool(b) => serde_json::Value::Bool(*b),
        Json::Number(JsonNumber::PosInt(n)) => serde_json::Value::Number((*n).into()),
        Json::Number(JsonNumber::NegInt(n)) => serde_json::Value::Number((*n).into()),
        Json::Number(JsonNumber::Float(bits)) => serde_json::Number::from_f64(f64::from_bits(*bits))
            .map_or(serde_json::Value::Null, serde_json::Value::Number),
        Json::String(s) => serde_json::Value::String(s.clone()),
        Json::Array(items) => serde_json::Value::Array(items.iter().map(to_value).collect()),
        Json::Object(members) => serde_json::Value::Object(
            members
                .iter()
                .map(|(k, v)| (k.clone(), to_value(v)))
                .collect(),
        ),
    }
}

fn to_text(json: &Json) -> String {
    serde_json::to_string(&to_value(json)).unwrap()
}

#[test]
fn json_form_of_an_assistant_message() {
    let message = Message::Assistant {
        content: "hi".to_string(),
        meta: meta("s"),
    };
    assert_eq!(
        message.to_json(),
        Json::Object(vec![
            ("type".to_string(), Json::String("assistant".to_string())),
            ("content".to_string(), Json::String("hi".to_string())),
            ("session_id".to_string(), Json::String("s".to_string())),
            ("timestamp".to_string(), Json::Null),
            ("cost_usd".to_string(), Json::Null),
            ("duration_ms".to_string(), Json::Null),
            ("tokens_used".to_string(), Json::Null),
        ])
    );
}

#[test]
fn json_form_of_full_metadata() {
    let message = Message::Init { meta: full_meta() };
    assert_eq!(
        message.to_json(),
        Json::Object(vec![
            ("type".to_string(), Json::String("init".to_string())),
            ("session_id".to_string(), Json::String("s-1".to_string())),
            (
                "timestamp".to_string(),
                Json::Object(vec![
                    (
                        "secs_since_epoch".to_string(),
                        Json::Number(JsonNumber::PosInt(1_700_000_000))
                    ),
                    (
                        "nanos_since_epoch".to_string(),
                        Json::Number(JsonNumber::PosInt(999_999_999))
                    ),
                ])
            ),
            (
                "cost_usd".to_string(),
                Json::Number(JsonNumber::Float(0.015f64.to_bits()))
            ),
            (
                "duration_ms".to_string(),
                Json::Number(JsonNumber::PosInt(u64::MAX))
            ),
            (
                "tokens_used".to_string(),
                Json::Object(vec![
                    ("input".to_string(), Json::Number(JsonNumber::PosInt(1))),
                    ("output".to_string(), Json::Number(JsonNumber::PosInt(2))),
                    ("total".to_string(), Json::Number(JsonNumber::PosInt(3))),
                ])
            ),
        ])
    );
}

#[test]
fn a_cost_that_is_not_finite_is_written_as_null() {
    for cost in [f64::NAN, f64::INFINITY, f64::NEG_INFINITY] {
        let mut with_cost = meta("s");
        with_cost.cost_usd = Some(JsonNumber::Float(cost.to_bits()));
        let message = Message::Init { meta: with_cost };
        let json = message.to_json();
        assert_eq!(json.get("cost_usd"), Some(&Json::Null));
        assert_eq!(
            Message::from_json(&json),
            Ok(Message::Init { meta: meta("s") })
        );
    }
    let stats = ConversationStats {
        total_messages: 0,
        total_cost_usd: JsonNumber::Float(f64::NAN.to_bits()),
        total_duration_ms: 0,
        total_tokens: TokenUsage {
            input: 0,
            output: 0,
            total: 0,
        },
    };
    let message = Message::Result {
        meta: meta("s"),
        stats,
    };
    assert_eq!(
        Message::from_json(&message.to_json()),
        Err(Error::SerializationError(
            "missing or invalid field `stats`".to_string()
        ))
    );
}

#[test]
fn finite_numbers_at_the_edges_survive() {
    for cost in [0.0f64, -0.0, f64::MAX, f64::MIN, f64::MIN_POSITIVE, 5e-324] {
        let mut with_cost = meta("s");
        with_cost.cost_usd = Some(JsonNumber::Float(cost.to_bits()));
        let message = Message::Init { meta: with_cost };
        assert_eq!(Message::from_json(&message.to_json()), Ok(message));
    }
    assert!(JsonNumber::Float(f64::MAX.to_bits()).is_writable());
    assert!(JsonNumber::Float((-0.0f64).to_bits()).is_writable());
    assert!(!JsonNumber::Float(f64::NAN.to_bits()).is_writable());
    assert!(!JsonNumber::Float(f64::INFINITY.to_bits()).is_writable());
    assert!(!JsonNumber::Float(f64::NEG_INFINITY.to_bits()).is_writable());
    assert!(JsonNumber::NegInt(-1).is_writable());
    assert!(JsonNumber::PosInt(0).is_writable());
}

#[test]
fn whole_seconds_among_the_nanoseconds_are_carried() {
    let line = r#"{"type":"init","session_id":"s","timestamp":{"secs_since_epoch":10,"nanos_since_epoch":2500000001}}"#;
    let json = Json::parse(line).unwrap();
    let mut expected = meta("s");
    expected.timestamp = Some(Timestamp {
        secs_since_epoch: 12,
        nanos_since_epoch: 500_000_001,
    });
    assert_eq!(
        Message::from_json(&json),
        Ok(Message::Init { meta: expected })
    );
    let overflow = r#"{"type":"init","session_id":"s","timestamp":{"secs_since_epoch":18446744073709551615,"nanos_since_epoch":1000000000}}"#;
    assert_eq!(
        Message::from_json(&Json::parse(overflow).unwrap()),
        Err(Error::SerializationError(
            "missing or invalid field `timestamp`".to_string()
        ))
    );
    let too_many = r#"{"type":"init","session_id":"s","timestamp":{"secs_since_epoch":1,"nanos_since_epoch":4294967296}}"#;
    assert!(Message::from_json(&Json::parse(too_many).unwrap()).is_err());
}

#[test]
fn decoding_reports_the_first_wrong_member() {
    let cases = [
        ("null", "expected a JSON object"),
        ("[]", "expected a JSON object"),
        ("{}", "missing or invalid field `type`"),
        (r#"{"type":"unknown","session_id":"s"}"#, "missing or invalid field `type`"),
        (r#"{"type":"Init","session_id":"s"}"#, "missing or invalid field `type`"),
        (r#"{"type":"init"}"#, "missing or invalid field `session_id`"),
        (
            r#"{"type":"init","session_id":"s","timestamp":5}"#,
            "missing or invalid field `timestamp`",
        ),
        (
            r#"{"type":"init","session_id":"s","cost_usd":"1"}"#,
            "missing or invalid field `cost_usd`",
        ),
        (
            r#"{"type":"init","session_id":"s","duration_ms":-1}"#,
            "missing or invalid field `duration_ms`",
        ),
        (
            r#"{"type":"init","session_id":"s","tokens_used":{"input":1,"output":2}}"#,
            "missing or invalid field `tokens_used`",
        ),
        (
            r#"{"type":"user","session_id":"s"}"#,
            "missing or invalid field `content`",
        ),
        (
            r#"{"type":"assistant","session_id":"s","content":1}"#,
            "missing or invalid field `content`",
        ),
        (
            r#"{"type":"system","session_id":"s","content":null}"#,
            "missing or invalid field `content`",
        ),
        (
            r#"{"type":"result","session_id":"s"}"#,
            "missing or invalid field `stats`",
        ),
        (
            r#"{"type":"result","session_id":"s","stats":{"total_messages":1,"total_cost_usd":1,"total_duration_ms":1}}"#,
            "missing or invalid field `stats`",
        ),
        (
            r#"{"type":"tool","session_id":"s","parameters":{}}"#,
            "missing or invalid field `name`",
        ),
        (
            r#"{"type":"tool","session_id":"s","name":"n"}"#,
            "missing or invalid field `parameters`",
        ),
        (
            r#"{"type":"tool_result","session_id":"s","result":1}"#,
            "missing or invalid field `tool_name`",
        ),
        (
            r#"{"type":"tool_result","session_id":"s","tool_name":"n"}"#,
            "missing or invalid field `result`",
        ),
    ];
    for (line, message) in cases {
        assert_eq!(
            Message::from_json(&Json::parse(line).unwrap()),
            Err(Error::SerializationError(message.to_string())),
            "{}",
            line
        );
    }
}

#[test]
fn decoding_takes_numbers_of_every_kind_as_cost() {
    let line = r#"{"type":"result","session_id":"s","cost_usd":3,"stats":{"total_messages":1,"total_cost_usd":-2,"total_duration_ms":3,"total_tokens":{"input":1,"output":2,"total":3}},"extra":true}"#;
    let mut expected_meta = meta("s");
    expected_meta.cost_usd = Some(JsonNumber::PosInt(3));
    assert_eq!(
        Message::from_json(&Json::parse(line).unwrap()),
        Ok(Message::Result {
            meta: expected_meta,
            stats: ConversationStats {
                total_messages: 1,
                total_cost_usd: JsonNumber::NegInt(-2),
                total_duration_ms: 3,
                total_tokens: TokenUsage {
                    input: 1,
                    output: 2,
                    total: 3
                },
            },
        })
    );
}

#[test]
fn tags_name_kinds() {
    assert_eq!(MessageType::from_tag("init"), Some(MessageType::Init));
    assert_eq!(MessageType::from_tag("user"), Some(MessageType::User));
    assert_eq!(MessageType::from_tag("assistant"), Some(MessageType::Assistant));
    assert_eq!(MessageType::from_tag("result"), Some(MessageType::Result));
    assert_eq!(MessageType::from_tag("system"), Some(MessageType::System));
    assert_eq!(MessageType::from_tag("tool"), Some(MessageType::Tool));
    assert_eq!(MessageType::from_tag("tool_result"), Some(MessageType::ToolResult));
    assert_eq!(MessageType::from_tag("toolresult"), None);
    assert_eq!(MessageType::from_tag(""), None);
}

#[test]
fn parser_reads_lines() {
    let text_parser = MessageParser::new(StreamFormat::Text);
    assert_eq!(text_parser.parse_line("anything at all"), Ok(None));
    assert_eq!(
        text_parser.parse_line(r#"{"type":"init","session_id":"s"}"#),
        Ok(None)
    );
    for format in [StreamFormat::Json, StreamFormat::StreamJson] {
        let parser = MessageParser::new(format);
        assert_eq!(parser.parse_line(""), Ok(None));
        assert_eq!(parser.parse_line("  \t "), Ok(None));
        assert_eq!(
            parser.parse_line(r#"  {"type":"init","session_id":"s"} "#),
            Ok(Some(Message::Init { meta: meta("s") }))
        );
        assert!(matches!(
            parser.parse_line("not json"),
            Err(Error::SerializationError(_))
        ));
        assert_eq!(
            parser.parse_line("{}"),
            Err(Error::SerializationError(
                "missing or invalid field `type`".to_string()
            ))
        );
    }
}

#[test]
fn parser_wraps_plain_text() {
    let now = Timestamp {
        secs_since_epoch: 5,
        nanos_since_epoch: 6,
    };
    let parser = MessageParser::new(StreamFormat::Text);
    assert_eq!(
        parser.parse_text_response("some text", now),
        Message::Assistant {
            content: "some text".to_string(),
            meta: MessageMeta {
                session_id: "text-response".to_string(),
                timestamp: Some(now),
                cost_usd: None,
                duration_ms: None,
                tokens_used: None,
            },
        }
    );
}
