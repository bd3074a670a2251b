use clau::{Json, JsonNumber};

fn n(u: u64) -> Json {
    Json::Number(JsonNumber::PosInt(u))
}

#[test]
fn parse_scalars() {
    assert_eq!(Json::parse("null"), Ok(Json::Null));
    assert_eq!(Json::parse("true"), Ok(Json::Bool(true)));
    assert_eq!(Json::parse(" false "), Ok(Json::Bool(false)));
    assert_eq!(Json::parse("\"a\\nb\""), Ok(Json::String("a\nb".to_string())));
    assert_eq!(Json::parse("\"\\u00e9\""), Ok(Json::String("é".to_string())));
}

#[test]
fn parse_numbers() {
    assert_eq!(Json::parse("0"), Ok(n(0)));
    assert_eq!(Json::parse("18446744073709551615"), Ok(n(u64::MAX)));
    assert_eq!(Json::parse("-1"), Ok(Json::Number(JsonNumber::NegInt(-1))));
    assert_eq!(
        Json::parse("-9223372036854775808"),
        Ok(Json::Number(JsonNumber::NegInt(i64::MIN)))
    );
    assert_eq!(
        Json::parse("1.5"),
        Ok(Json::Number(JsonNumber::Float(1.5f64.to_bits())))
    );
    assert_eq!(
        Json::parse("-0.0"),
        Ok(Json::Number(JsonNumber::Float((-0.0f64).to_bits())))
    );
    assert_eq!(
        Json::parse("1e3"),
        Ok(Json::Number(JsonNumber::Float(1000f64.to_bits())))
    );
    assert_eq!(
        Json::parse("18446744073709551616"),
        Ok(Json::Number(JsonNumber::Float(
            18446744073709551616f64.to_bits()
        )))
    );
}

#[test]
fn parse_nested() {
    assert_eq!(
        Json::parse(r#"{"b":[1,{"c":null}],"a":"x"}"#),
        Ok(Json::Object(vec![
            ("a".to_string(), Json::String("x".to_string())),
            (
                "b".to_string(),
                Json::Array(vec![
                    n(1),
                    Json::Object(vec![("c".to_string(), Json::Null)])
                ])
            ),
        ]))
    );
    assert_eq!(Json::parse("[]"), Ok(Json::Array(Vec::new())));
    assert_eq!(Json::parse("{}"), Ok(Json::Object(Vec::new())));
}

#[test]
fn parse_keeps_the_last_of_equal_keys() {
    assert_eq!(
        Json::parse(r#"{"a":1,"a":2}"#),
        Ok(Json::Object(vec![("a".to_string(), n(2))]))
    );
}

#[test]
fn parse_failures_carry_the_message() {
    for text in ["", "{", "nul", "[1,]", "{\"a\":1,}", "1 2", "'a'"] {
        let expected = serde_json::from_str::<serde_json::Value>(text)
            .unwrap_err()
            .to_string();
        assert_eq!(Json::parse(text), Err(expected));
    }
}

#[test]
fn parse_deep_nesting_is_refused_not_fatal() {
    let deep = "[".repeat(200) + &"]".repeat(200);
    assert!(Json::parse(&deep).is_err());
    let fine = "[".repeat(100) + &"]".repeat(100);
    assert!(Json::parse(&fine).is_ok());
}

#[test]
fn members_are_found_by_key() {
    let json = Json::Object(vec![
        ("a".to_string(), n(1)),
        ("b".to_string(), Json::String("x".to_string())),
        ("a".to_string(), n(2)),
        ("c".to_string(), Json::Bool(true)),
        ("d".to_string(), Json::Number(JsonNumber::Float(0.5f64.to_bits()))),
    ]);
    assert_eq!(json.get("a"), Some(&n(1)));
    assert_eq!(json.get("b"), Some(&Json::String("x".to_string())));
    assert_eq!(json.get("z"), None);
    assert_eq!(json.get(""), None);
    assert_eq!(json.get_str("b"), Some("x"));
    assert_eq!(json.get_str("a"), None);
    assert_eq!(json.get_u64("a"), Some(1));
    assert_eq!(json.get_u64("d"), None);
    assert_eq!(json.get_bool("c"), Some(true));
    assert_eq!(json.get_bool("a"), None);
    assert_eq!(json.get_number("a"), Some(JsonNumber::PosInt(1)));
    assert_eq!(
        json.get_number("d"),
        Some(JsonNumber::Float(0.5f64.to_bits()))
    );
    assert_eq!(json.get_number("b"), None);
    assert_eq!(Json::Array(vec![n(1)]).get("0"), None);
    assert_eq!(Json::Null.get("a"), None);
}

#[test]
fn values_are_read_by_kind() {
    assert_eq!(Json::String("s".to_string()).as_str(), Some("s"));
    assert_eq!(n(1).as_str(), None);
    assert_eq!(Json::Array(vec![n(1)]).as_array(), Some(&vec![n(1)]));
    assert_eq!(Json::Null.as_array(), None);
    assert_eq!(n(7).as_u64(), Some(7));
    assert_eq!(Json::Number(JsonNumber::NegInt(-7)).as_u64(), None);
    assert_eq!(Json::Number(JsonNumber::Float(7f64.to_bits())).as_u64(), None);
    assert_eq!(Json::Bool(false).as_bool(), Some(false));
    assert_eq!(Json::Null.as_bool(), None);
    assert!(Json::Null.is_null());
    assert!(!Json::Bool(false).is_null());
    assert!(Json::Object(Vec::new()).is_object());
    assert!(!Json::Array(Vec::new()).is_object());
    assert_eq!(n(3).as_number(), Some(JsonNumber::PosInt(3)));
    assert_eq!(Json::Null.as_number(), None);
}

#[test]
fn deep_clone_copies_the_tree() {
    let json = Json::parse(r#"{"a":[1,2,{"b":"c"}],"d":{"e":null,"f":[[],{}]},"g":-1.25}"#).unwrap();
    assert_eq!(json.deep_clone(), json);
}
