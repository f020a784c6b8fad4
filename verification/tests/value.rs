use philipshue::hue::null_value;
use philipshue::value::{parse_json, JsonNumber, JsonValue};

fn text(s: &str) -> JsonValue {
    JsonValue::String(s.to_string())
}

fn number(n: u64) -> JsonValue {
    JsonValue::Number(JsonNumber::PosInt(n))
}

#[test]
fn parse_json_reads_scalars() {
    assert_eq!(parse_json(b"null"), Some(JsonValue::Null));
    assert_eq!(parse_json(b"true"), Some(JsonValue::Bool(true)));
    assert_eq!(parse_json(b"false"), Some(JsonValue::Bool(false)));
    assert_eq!(parse_json(b"\"x\""), Some(text("x")));
    assert_eq!(parse_json(b" 200 "), Some(number(200)));
}

#[test]
fn parse_json_tells_the_kinds_of_numbers_apart() {
    assert_eq!(parse_json(b"0"), Some(number(0)));
    assert_eq!(parse_json(b"18446744073709551615"), Some(number(u64::MAX)));
    assert_eq!(parse_json(b"-3"), Some(JsonValue::Number(JsonNumber::NegInt(-3))));
    assert_eq!(
        parse_json(b"-9223372036854775808"),
        Some(JsonValue::Number(JsonNumber::NegInt(i64::MIN)))
    );
    assert_eq!(
        parse_json(b"0.5"),
        Some(JsonValue::Number(JsonNumber::Float(0.5f64.to_bits())))
    );
    assert_eq!(
        parse_json(b"2e2"),
        Some(JsonValue::Number(JsonNumber::Float(200f64.to_bits())))
    );
    assert_eq!(
        parse_json(b"-0.25"),
        Some(JsonValue::Number(JsonNumber::Float((-0.25f64).to_bits())))
    );
    assert_eq!(
        parse_json(b"18446744073709551616"),
        Some(JsonValue::Number(JsonNumber::Float(18446744073709551616f64.to_bits())))
    );
}

#[test]
fn parse_json_reads_strings_with_escapes() {
    assert_eq!(parse_json(b"\"a\\\"b\\n\""), Some(text("a\"b\n")));
    assert_eq!(parse_json("\"é\"".as_bytes()), Some(text("é")));
    assert_eq!(parse_json(b"\"\\u00e9\""), Some(text("é")));
}

#[test]
fn parse_json_reads_arrays_in_order() {
    assert_eq!(parse_json(b"[]"), Some(JsonValue::Array(vec![])));
    assert_eq!(
        parse_json(b"[1, \"a\", [true, null]]"),
        Some(JsonValue::Array(vec![
            number(1),
            text("a"),
            JsonValue::Array(vec![JsonValue::Bool(true), JsonValue::Null]),
        ]))
    );
}

#[test]
fn parse_json_reads_objects() {
    assert_eq!(parse_json(b"{}"), Some(JsonValue::Object(vec![])));
    assert_eq!(
        parse_json(b"{\"on\": true}"),
        Some(JsonValue::Object(vec![("on".to_string(), JsonValue::Bool(true))]))
    );
    assert_eq!(
        parse_json(b"{\"a\": {\"b\": [1]}}"),
        Some(JsonValue::Object(vec![(
            "a".to_string(),
            JsonValue::Object(vec![("b".to_string(), JsonValue::Array(vec![number(1)]))])
        )]))
    );
}

#[test]
fn parse_json_walks_the_members_of_an_object_by_key() {
    assert_eq!(
        parse_json(b"{\"type\": 1, \"address\": \"a\", \"description\": \"d\"}"),
        Some(JsonValue::Object(vec![
            ("address".to_string(), text("a")),
            ("description".to_string(), text("d")),
            ("type".to_string(), number(1)),
        ]))
    );
}

#[test]
fn parse_json_keeps_the_last_of_two_equal_keys() {
    assert_eq!(
        parse_json(b"{\"a\": 1, \"a\": 2}"),
        Some(JsonValue::Object(vec![("a".to_string(), number(2))]))
    );
}

#[test]
fn parse_json_refuses_what_is_not_json() {
    assert_eq!(parse_json(b""), None);
    assert_eq!(parse_json(b"   "), None);
    assert_eq!(parse_json(b"{"), None);
    assert_eq!(parse_json(b"[1,]"), None);
    assert_eq!(parse_json(b"{\"a\" 1}"), None);
    assert_eq!(parse_json(b"nul"), None);
    assert_eq!(parse_json(b"1 2"), None);
    assert_eq!(parse_json(b"'x'"), None);
    assert_eq!(parse_json(b"<html></html>"), None);
    assert_eq!(parse_json(&[0xff, 0xfe]), None);
    assert_eq!(parse_json(b"\"\xff\""), None);
}

#[test]
fn parse_json_refuses_what_is_nested_too_deep() {
    let deep = "[".repeat(200) + &"]".repeat(200);
    assert_eq!(parse_json(deep.as_bytes()), None);
    let shallow = "[".repeat(100) + &"]".repeat(100);
    assert!(parse_json(shallow.as_bytes()).is_some());
}

#[test]
fn parse_json_does_not_hand_the_text_back() {
    let body = b"\"true\"";
    assert_eq!(parse_json(body), Some(text("true")));
    assert_ne!(parse_json(body), Some(JsonValue::Bool(true)));
    assert_ne!(parse_json(b"[1]"), parse_json(b"[2]"));
}

#[test]
fn null_value_is_null() {
    assert_eq!(null_value(), JsonValue::Null);
}
