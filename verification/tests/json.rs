use philipshue::errors::{BridgeError, HueError};
use philipshue::json::{
    decode_outcome, member, read_error, Error, GroupId, HueResponse, Id, SceneRecall, User,
};
use philipshue::value::{JsonNumber, JsonValue};

fn text(s: &str) -> JsonValue {
    JsonValue::String(s.to_string())
}

fn number(n: u64) -> JsonValue {
    JsonValue::Number(JsonNumber::PosInt(n))
}

fn object(members: Vec<(&str, JsonValue)>) -> JsonValue {
    JsonValue::Object(members.into_iter().map(|(k, v)| (k.to_string(), v)).collect())
}

fn error_object(address: &str, description: &str, code: u64) -> JsonValue {
    object(vec![
        ("address", text(address)),
        ("description", text(description)),
        ("type", number(code)),
    ])
}

#[test]
fn member_finds_the_first_with_the_key() {
    let members = vec![
        ("a".to_string(), number(1)),
        ("b".to_string(), number(2)),
        ("a".to_string(), number(3)),
    ];
    assert_eq!(member(&members, "a"), Some(&number(1)));
    assert_eq!(member(&members, "b"), Some(&number(2)));
    assert_eq!(member(&members, "c"), None);
    assert_eq!(member(&Vec::new(), "a"), None);
}

#[test]
fn read_error_reads_the_three_members() {
    let v = error_object("/lights/5/state/hue", "invalid value", 7);
    assert_eq!(
        read_error(&v),
        Some(Error {
            address: "/lights/5/state/hue".to_string(),
            description: "invalid value".to_string(),
            code: 7,
        })
    );
}

#[test]
fn read_error_takes_the_members_in_any_order_and_passes_over_others() {
    let v = object(vec![
        ("type", number(101)),
        ("extra", JsonValue::Null),
        ("description", text("link button not pressed")),
        ("address", text("")),
    ]);
    assert_eq!(
        read_error(&v),
        Some(Error {
            address: "".to_string(),
            description: "link button not pressed".to_string(),
            code: 101,
        })
    );
}

#[test]
fn read_error_takes_every_integer_as_the_code() {
    assert_eq!(read_error(&error_object("a", "d", 65535)).map(|e| e.code), Some(65535));
    assert_eq!(read_error(&error_object("a", "d", 0)).map(|e| e.code), Some(0));
    assert_eq!(read_error(&error_object("a", "d", 65536)).map(|e| e.code), Some(65536));
    assert_eq!(read_error(&error_object("a", "d", 999999)).map(|e| e.code), Some(999999));
    assert_eq!(
        read_error(&error_object("a", "d", u64::MAX)).map(|e| e.code),
        Some(18446744073709551615)
    );
    let negative = object(vec![
        ("address", text("a")),
        ("description", text("d")),
        ("type", JsonValue::Number(JsonNumber::NegInt(-1))),
    ]);
    assert_eq!(read_error(&negative).map(|e| e.code), Some(-1));
    let lowest = object(vec![
        ("address", text("a")),
        ("description", text("d")),
        ("type", JsonValue::Number(JsonNumber::NegInt(i64::MIN))),
    ]);
    assert_eq!(read_error(&lowest).map(|e| e.code), Some(-9223372036854775808));
}

#[test]
fn read_error_refuses_other_shapes() {
    assert_eq!(read_error(&JsonValue::Null), None);
    assert_eq!(read_error(&text("error")), None);
    assert_eq!(read_error(&JsonValue::Array(vec![])), None);
    assert_eq!(read_error(&object(vec![])), None);
    assert_eq!(
        read_error(&object(vec![("address", text("a")), ("description", text("d"))])),
        None
    );
    assert_eq!(
        read_error(&object(vec![("address", text("a")), ("type", number(1))])),
        None
    );
    assert_eq!(
        read_error(&object(vec![("description", text("d")), ("type", number(1))])),
        None
    );
    assert_eq!(
        read_error(&object(vec![
            ("address", number(1)),
            ("description", text("d")),
            ("type", number(1)),
        ])),
        None
    );
    assert_eq!(
        read_error(&object(vec![
            ("address", text("a")),
            ("description", JsonValue::Null),
            ("type", number(1)),
        ])),
        None
    );
    assert_eq!(
        read_error(&object(vec![
            ("address", text("a")),
            ("description", text("d")),
            ("type", text("1")),
        ])),
        None
    );
    assert_eq!(
        read_error(&object(vec![
            ("address", text("a")),
            ("description", text("d")),
            ("type", JsonValue::Number(JsonNumber::Float(1f64.to_bits()))),
        ])),
        None
    );
}

#[test]
fn outcome_with_success_carries_the_payload() {
    let v = object(vec![("success", object(vec![("/lights/1/state/on", JsonValue::Bool(true))]))]);
    assert_eq!(
        decode_outcome(v),
        Ok(HueResponse::Success(object(vec![("/lights/1/state/on", JsonValue::Bool(true))])))
    );
    assert_eq!(
        decode_outcome(object(vec![("success", text("/lights/1 deleted"))])),
        Ok(HueResponse::Success(text("/lights/1 deleted")))
    );
    assert_eq!(
        decode_outcome(object(vec![("success", JsonValue::Null)])),
        Ok(HueResponse::Success(JsonValue::Null))
    );
}

#[test]
fn outcome_with_error_carries_the_error() {
    let v = object(vec![("error", error_object("/", "unauthorized user", 1))]);
    assert_eq!(
        decode_outcome(v),
        Ok(HueResponse::Error(Error {
            address: "/".to_string(),
            description: "unauthorized user".to_string(),
            code: 1,
        }))
    );
}

#[test]
fn outcome_with_both_keys_is_malformed() {
    let v = object(vec![
        ("success", object(vec![("/lights/1/state/on", JsonValue::Bool(true))])),
        ("error", error_object("/", "unauthorized user", 1)),
    ]);
    assert_eq!(decode_outcome(v), Err(HueError::MalformedResponse));
    let w = object(vec![
        ("error", error_object("/", "unauthorized user", 1)),
        ("success", JsonValue::Bool(true)),
    ]);
    assert_eq!(decode_outcome(w), Err(HueError::MalformedResponse));
}

#[test]
fn outcome_with_neither_key_is_malformed() {
    assert_eq!(decode_outcome(object(vec![])), Err(HueError::MalformedResponse));
    assert_eq!(
        decode_outcome(object(vec![("result", JsonValue::Bool(true))])),
        Err(HueError::MalformedResponse)
    );
    assert_eq!(
        decode_outcome(object(vec![("Success", JsonValue::Bool(true))])),
        Err(HueError::MalformedResponse)
    );
}

#[test]
fn outcome_with_a_second_member_is_malformed() {
    let v = object(vec![("success", JsonValue::Bool(true)), ("more", JsonValue::Null)]);
    assert_eq!(decode_outcome(v), Err(HueError::MalformedResponse));
    let w = object(vec![("success", JsonValue::Bool(true)), ("success", JsonValue::Bool(true))]);
    assert_eq!(decode_outcome(w), Err(HueError::MalformedResponse));
}

#[test]
fn outcome_with_a_bad_error_object_is_malformed() {
    assert_eq!(
        decode_outcome(object(vec![("error", text("unauthorized user"))])),
        Err(HueError::MalformedResponse)
    );
    assert_eq!(
        decode_outcome(object(vec![(
            "error",
            object(vec![
                ("address", text("a")),
                ("description", text("d")),
                ("type", JsonValue::Number(JsonNumber::Float(1.5f64.to_bits()))),
            ])
        )])),
        Err(HueError::MalformedResponse)
    );
}

#[test]
fn outcome_that_is_no_object_is_malformed() {
    assert_eq!(decode_outcome(JsonValue::Null), Err(HueError::MalformedResponse));
    assert_eq!(decode_outcome(text("success")), Err(HueError::MalformedResponse));
    assert_eq!(decode_outcome(number(1)), Err(HueError::MalformedResponse));
    assert_eq!(decode_outcome(JsonValue::Array(vec![])), Err(HueError::MalformedResponse));
}

#[test]
fn into_result_of_a_success_is_ok() {
    let r: HueResponse<u8> = HueResponse::Success(7);
    assert_eq!(r.into_result(), Ok(7));
}

#[test]
fn into_result_of_an_error_is_the_bridge_error() {
    let r: HueResponse<u8> = HueResponse::Error(Error {
        address: "/groups".to_string(),
        description: "group table full".to_string(),
        code: 301,
    });
    assert_eq!(
        r.into_result(),
        Err(HueError::BridgeError {
            address: "/groups".to_string(),
            description: "group table full".to_string(),
            error: BridgeError::GroupCouldNotBeCreatedGroupFull,
        })
    );
}

#[test]
fn map_changes_a_success_and_keeps_an_error() {
    let r: HueResponse<u8> = HueResponse::Success(7);
    assert_eq!(r.map(|n| n as u32 + 1000), HueResponse::Success(1007u32));
    let e: HueResponse<u8> = HueResponse::Error(Error {
        address: "a".to_string(),
        description: "d".to_string(),
        code: 3,
    });
    assert_eq!(
        e.map(|n| n as u32 + 1000),
        HueResponse::Error(Error {
            address: "a".to_string(),
            description: "d".to_string(),
            code: 3,
        })
    );
}

#[test]
fn user_is_read_from_its_payload() {
    let v = object(vec![("username", text("83b7780291a6ceffbe0bd049104df"))]);
    assert_eq!(
        User::from_payload(&v),
        Ok(User { username: "83b7780291a6ceffbe0bd049104df".to_string() })
    );
    let w = object(vec![("clientkey", text("k")), ("username", text("u"))]);
    assert_eq!(User::from_payload(&w), Ok(User { username: "u".to_string() }));
}

#[test]
fn user_is_not_read_from_other_payloads() {
    assert_eq!(User::from_payload(&object(vec![])), Err(HueError::MalformedResponse));
    assert_eq!(
        User::from_payload(&object(vec![("username", number(1))])),
        Err(HueError::MalformedResponse)
    );
    assert_eq!(User::from_payload(&text("u")), Err(HueError::MalformedResponse));
}

#[test]
fn plain_payload_types_hold_their_fields() {
    assert_eq!(Id { id: "abc".to_string() }.id, "abc");
    assert_eq!(Id { id: 3usize }.id, 3);
    assert_eq!(GroupId { id: 4 }.id, 4);
    assert_eq!(SceneRecall { scene: "AB34EF5" }.scene, "AB34EF5");
}

#[test]
fn outcome_with_an_undocumented_code_is_an_error_of_the_bridge() {
    let v = object(vec![("error", error_object("/new", "something new", 999999))]);
    let outcome = decode_outcome(v).unwrap();
    assert_eq!(
        outcome,
        HueResponse::Error(Error {
            address: "/new".to_string(),
            description: "something new".to_string(),
            code: 999999,
        })
    );
    assert_eq!(
        outcome.into_result(),
        Err::<JsonValue, HueError>(HueError::BridgeError {
            address: "/new".to_string(),
            description: "something new".to_string(),
            error: BridgeError::Other,
        })
    );
}
