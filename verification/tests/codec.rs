//! Round trips and rejection cases for the wire codec.

use whiteboard_core::json::BodyField;
use whiteboard_core::json::FieldValue;
use whiteboard_core::server_msg::ServerMessage;
use whiteboard_core::wire::decode_init;
use whiteboard_core::wire::decode_request;
use whiteboard_core::wire::decode_server_message;
use whiteboard_core::wire::encode_init;
use whiteboard_core::wire::encode_request;
use whiteboard_core::wire::encode_server_message;
use whiteboard_core::wire::split_message_type;
use whiteboard_core::wire::InitMessage;

fn field(key: &str, value: FieldValue) -> BodyField {
    BodyField { key: key.to_string(), value }
}

#[test]
fn server_message_round_trip() {
    let m = ServerMessage {
        message_type: "response_lockelement".to_string(),
        status: "OK".to_string(),
        body: "{\"_id\":\"e1\",\"userId\":\"u1\"}".to_string(),
    };
    let text = encode_server_message(&m);
    assert_eq!(
        text,
        "{\"messageType\":\"response_lockelement\",\"status\":\"OK\",\"body\":\"{\\\"_id\\\":\\\"e1\\\",\\\"userId\\\":\\\"u1\\\"}\"}"
    );
    let back = decode_server_message(&text).unwrap();
    assert_eq!(back.message_type, m.message_type);
    assert_eq!(back.status, m.status);
    assert_eq!(back.body, m.body);
}

#[test]
fn server_message_round_trip_with_escapes() {
    let m = ServerMessage {
        message_type: "a\"b\\c".to_string(),
        status: "line\nbreak\ttab\rret".to_string(),
        body: "plain".to_string(),
    };
    let text = encode_server_message(&m);
    let back = decode_server_message(&text).unwrap();
    assert_eq!(back.message_type, m.message_type);
    assert_eq!(back.status, m.status);
    assert_eq!(back.body, m.body);
}

#[test]
fn request_round_trip_all_value_shapes() {
    let body = vec![
        field("_id", FieldValue::Str("e1".to_string())),
        field("selected", FieldValue::Bool(true)),
        field("hidden", FieldValue::Bool(false)),
        field("lockedBy", FieldValue::Null),
        field("x", FieldValue::Int(-42)),
        field("y", FieldValue::Int(9000)),
        field(
            "ids",
            FieldValue::StrList(vec!["a".to_string(), "b".to_string(), "c".to_string()]),
        ),
        field("empty", FieldValue::StrList(vec![])),
    ];
    let text = encode_request("element_updateelement", &body);
    let frame = decode_request(&text).unwrap();
    assert_eq!(frame.message_type, "element_updateelement");
    assert_eq!(frame.body.len(), 8);
    assert_eq!(frame.body[0].key, "_id");
    assert!(matches!(&frame.body[0].value, FieldValue::Str(s) if s == "e1"));
    assert!(matches!(frame.body[1].value, FieldValue::Bool(true)));
    assert!(matches!(frame.body[2].value, FieldValue::Bool(false)));
    assert!(matches!(frame.body[3].value, FieldValue::Null));
    assert!(matches!(frame.body[4].value, FieldValue::Int(-42)));
    assert!(matches!(frame.body[5].value, FieldValue::Int(9000)));
    assert!(
        matches!(&frame.body[6].value, FieldValue::StrList(l) if l == &vec!["a".to_string(), "b".to_string(), "c".to_string()])
    );
    assert!(matches!(&frame.body[7].value, FieldValue::StrList(l) if l.is_empty()));
}

#[test]
fn request_round_trip_extreme_integers() {
    let body = vec![
        field("min", FieldValue::Int(i64::MIN)),
        field("max", FieldValue::Int(i64::MAX)),
        field("zero", FieldValue::Int(0)),
    ];
    let text = encode_request("element_moveelements", &body);
    let frame = decode_request(&text).unwrap();
    assert!(matches!(frame.body[0].value, FieldValue::Int(v) if v == i64::MIN));
    assert!(matches!(frame.body[1].value, FieldValue::Int(v) if v == i64::MAX));
    assert!(matches!(frame.body[2].value, FieldValue::Int(0)));
}

#[test]
fn init_round_trip() {
    let m = InitMessage {
        message_type: "init".to_string(),
        event_category: "element".to_string(),
        context_id: "board7".to_string(),
    };
    let text = encode_init(&m);
    assert_eq!(
        text,
        "{\"messageType\":\"init\",\"eventCategory\":\"element\",\"contextId\":\"board7\"}"
    );
    let back = decode_init(&text).unwrap();
    assert_eq!(back.message_type, "init");
    assert_eq!(back.event_category, "element");
    assert_eq!(back.context_id, "board7");
}

#[test]
fn malformed_frames_are_rejected() {
    assert!(decode_request("").is_none());
    assert!(decode_request("not json at all").is_none());
    assert!(decode_request("{\"messageType\":\"x\"}").is_none());
    assert!(decode_request("{\"messageType\":\"x\",\"body\":{}").is_none());
    assert!(decode_request("{\"messageType\":\"x\",\"body\":{}}trailing").is_none());
    assert!(decode_request("{\"messageType\":\"x\",\"body\":{\"a\":}}").is_none());
    assert!(decode_request("{\"messageType\":\"x\",\"body\":{\"n\":12345678901234567890123}}").is_none());
    assert!(decode_server_message("{\"messageType\":\"x\",\"status\":1,\"body\":\"b\"}").is_none());
    assert!(decode_init("{\"messageType\":\"init\"}").is_none());
}

#[test]
fn whitespace_between_tokens_is_not_canonical() {
    // The wire form is canonical: a frame with padding between tokens is
    // malformed and must be rejected, not guessed at.
    assert!(decode_request("{\"messageType\": \"x\",\"body\":{}}").is_none());
    assert!(decode_request("{ \"messageType\":\"x\",\"body\":{}}").is_none());
    assert!(decode_request("{\"messageType\":\"x\",\"body\":{\"a\":1, \"b\":2}}").is_none());
}

#[test]
fn empty_body_round_trip() {
    let text = encode_request("board_memberadd", &vec![]);
    assert_eq!(text, "{\"messageType\":\"board_memberadd\",\"body\":{}}");
    let frame = decode_request(&text).unwrap();
    assert_eq!(frame.message_type, "board_memberadd");
    assert!(frame.body.is_empty());
}

#[test]
fn message_type_splitting() {
    let (cat, sub) = split_message_type("element_lockelement").unwrap();
    assert_eq!(cat, "element");
    assert_eq!(sub, "lockelement");
    let (cat2, sub2) = split_message_type("a_b_c").unwrap();
    assert_eq!(cat2, "a");
    assert_eq!(sub2, "b");
    let (cat3, sub3) = split_message_type("board_").unwrap();
    assert_eq!(cat3, "board");
    assert_eq!(sub3, "");
    assert!(split_message_type("noseparator").is_none());
}
