//! Pub/sub fan-out and whole sessions driven through the wire: the
//! handshake, dispatching frames, and event delivery per subscriber.

use whiteboard_core::category::EventCategory;
use whiteboard_core::context::ActiveMemberContext;
use whiteboard_core::context::BoardContext;
use whiteboard_core::context::ClientContext;
use whiteboard_core::context::ElementContext;
use whiteboard_core::hub::EventHub;
use whiteboard_core::json::BodyField;
use whiteboard_core::json::FieldValue;
use whiteboard_core::records::Board;
use whiteboard_core::records::Element;
use whiteboard_core::session::close_session;
use whiteboard_core::session::open_session;
use whiteboard_core::session::session_step;
use whiteboard_core::store::Store;
use whiteboard_core::wire::encode_request;

fn board(id: &str, host: &str, members: &[&str]) -> Board {
    Board {
        _id: id.to_string(),
        name: "canvas".to_string(),
        host: host.to_string(),
        allowed_members: members.iter().map(|m| m.to_string()).collect(),
    }
}

fn element(id: &str, board: &str, x: i64, y: i64) -> Element {
    Element {
        _id: id.to_string(),
        selected: false,
        locked_by: None,
        x,
        y,
        rotation: 0,
        scale_x: 1,
        scale_y: 1,
        z_index: 0,
        created_at: "2024-01-01T00:00:00Z".to_string(),
        text: "".to_string(),
        element_type: "note".to_string(),
        board_id: board.to_string(),
        color: "#fff".to_string(),
    }
}

fn field(key: &str, value: FieldValue) -> BodyField {
    BodyField { key: key.to_string(), value }
}

#[test]
fn publish_reaches_subscribers_of_the_key_and_no_others() {
    let mut hub = EventHub::new();
    let board_b = "boardB".to_string();
    let board_c = "boardC".to_string();
    let s1 = hub.subscribe(&board_b);
    let s2 = hub.subscribe(&board_b);
    let s3 = hub.subscribe(&board_c);
    let reached = hub.publish("boardB");
    assert!(reached.contains(&s1));
    assert!(reached.contains(&s2));
    assert!(!reached.contains(&s3));
    assert_eq!(reached.len(), 2);
    // A key without a topic reaches no one.
    assert!(hub.publish("boardZ").is_empty());
}

#[test]
fn unsubscribed_stream_receives_nothing() {
    let mut hub = EventHub::new();
    let key = "boardB".to_string();
    let s1 = hub.subscribe(&key);
    let s2 = hub.subscribe(&key);
    hub.unsubscribe(s1);
    let reached = hub.publish("boardB");
    assert!(!reached.contains(&s1));
    assert!(reached.contains(&s2));
    assert_eq!(reached.len(), 1);
}

#[test]
fn handshake_binds_to_an_existing_board() {
    let mut store = Store::new();
    assert!(store.insert_board(board("b1", "host", &["host"])));
    let mut bc = BoardContext::new();
    let mut ec = ElementContext::new();
    let mut cc = ClientContext::new();
    let mut ac = ActiveMemberContext::new();
    let init = "{\"messageType\":\"init\",\"eventCategory\":\"element\",\"contextId\":\"b1\"}";
    let (binding, ack) =
        open_session(&mut bc, &mut ec, &mut cc, &mut ac, &store, init).unwrap();
    assert_eq!(ack.message_type, "success");
    assert_eq!(ack.status, "OK");
    assert_eq!(ack.body, "initialized");
    assert_eq!(binding.key, "b1");
    assert!(matches!(binding.category, EventCategory::Element));
}

#[test]
fn handshake_rejects_bad_frames() {
    let store = Store::new();
    let mut bc = BoardContext::new();
    let mut ec = ElementContext::new();
    let mut cc = ClientContext::new();
    let mut ac = ActiveMemberContext::new();
    // Not an init frame at all.
    assert!(open_session(&mut bc, &mut ec, &mut cc, &mut ac, &store, "garbage").is_err());
    // Wrong message type.
    let wrong_type =
        "{\"messageType\":\"hello\",\"eventCategory\":\"element\",\"contextId\":\"b1\"}";
    assert!(open_session(&mut bc, &mut ec, &mut cc, &mut ac, &store, wrong_type).is_err());
    // Unknown category.
    let wrong_cat =
        "{\"messageType\":\"init\",\"eventCategory\":\"weather\",\"contextId\":\"b1\"}";
    assert!(open_session(&mut bc, &mut ec, &mut cc, &mut ac, &store, wrong_cat).is_err());
    // Board categories need a stored board.
    let no_board =
        "{\"messageType\":\"init\",\"eventCategory\":\"element\",\"contextId\":\"nope\"}";
    assert!(open_session(&mut bc, &mut ec, &mut cc, &mut ac, &store, no_board).is_err());
    // The client category takes the context id verbatim.
    let client = "{\"messageType\":\"init\",\"eventCategory\":\"client\",\"contextId\":\"u9\"}";
    let (binding, _) =
        open_session(&mut bc, &mut ec, &mut cc, &mut ac, &store, client).unwrap();
    assert_eq!(binding.key, "u9");
    assert!(matches!(binding.category, EventCategory::Client));
}

#[test]
fn move_events_fan_out_per_id_to_the_right_board() {
    // Two sessions subscribed to board B's element category, one to board
    // C: a batch move on B yields one move event per id, delivered to both
    // B subscribers and to neither C's subscriber nor a dropped one.
    let mut store = Store::new();
    assert!(store.insert_board(board("B", "host", &["host"])));
    assert!(store.insert_board(board("C", "host", &["host"])));
    assert!(store.insert_element(element("e1", "B", 10, 10)));
    assert!(store.insert_element(element("e2", "B", 20, 20)));
    let mut bc = BoardContext::new();
    let mut ec = ElementContext::new();
    let mut cc = ClientContext::new();
    let mut ac = ActiveMemberContext::new();
    let init_b = "{\"messageType\":\"init\",\"eventCategory\":\"element\",\"contextId\":\"B\"}";
    let init_c = "{\"messageType\":\"init\",\"eventCategory\":\"element\",\"contextId\":\"C\"}";
    let (sub1, _) = open_session(&mut bc, &mut ec, &mut cc, &mut ac, &store, init_b).unwrap();
    let (sub2, _) = open_session(&mut bc, &mut ec, &mut cc, &mut ac, &store, init_b).unwrap();
    let (sub3, _) = open_session(&mut bc, &mut ec, &mut cc, &mut ac, &store, init_c).unwrap();
    let (gone, _) = open_session(&mut bc, &mut ec, &mut cc, &mut ac, &store, init_b).unwrap();
    close_session(&gone, &mut bc, &mut ec, &mut cc, &mut ac);

    let body = vec![
        field(
            "ids",
            FieldValue::StrList(vec!["e1".to_string(), "e2".to_string()]),
        ),
        field("userId", FieldValue::Str("mover".to_string())),
        field("boardId", FieldValue::Str("B".to_string())),
        field("xOffset", FieldValue::Int(4)),
        field("yOffset", FieldValue::Int(-2)),
    ];
    let frame = encode_request("element_moveelements", &body);
    let (res, emissions) = session_step(&frame, &mut store, &bc, &ec, &ac).unwrap();
    let ok = res.unwrap();
    assert_eq!(ok.message_type, "response_moveelements");
    assert_eq!(ok.status, "OK");

    // One event per id, each reaching exactly the two live B subscribers.
    assert_eq!(emissions.len(), 2);
    for (i, expected_id) in ["e1", "e2"].iter().enumerate() {
        let em = &emissions[i];
        assert_eq!(em.message.message_type, "element_moved");
        assert_eq!(em.message.status, "OK");
        let expected_body = format!(
            "{{\"_id\":\"{}\",\"userId\":\"mover\",\"xOffset\":4,\"yOffset\":-2}}",
            expected_id
        );
        assert_eq!(em.message.body, expected_body);
        assert!(em.subscribers.contains(&sub1.subscriber));
        assert!(em.subscribers.contains(&sub2.subscriber));
        assert!(!em.subscribers.contains(&sub3.subscriber));
        assert!(!em.subscribers.contains(&gone.subscriber));
        assert_eq!(em.subscribers.len(), 2);
    }
    assert_eq!(store.elements[0].x, 14);
    assert_eq!(store.elements[0].y, 8);
    assert_eq!(store.elements[1].x, 24);
    assert_eq!(store.elements[1].y, 18);
}

#[test]
fn undecodable_and_unroutable_frames_yield_error_envelopes() {
    let mut store = Store::new();
    let bc = BoardContext::new();
    let ec = ElementContext::new();
    let ac = ActiveMemberContext::new();
    // Undecodable text is fatal: no response, the stream must end.
    assert!(session_step("not a frame", &mut store, &bc, &ec, &ac).is_none());
    // No underscore in the message type: an error envelope, stream open.
    let f2 = encode_request("ping", &vec![]);
    let (r2, _) = session_step(&f2, &mut store, &bc, &ec, &ac).unwrap();
    let r2 = r2.unwrap_err();
    assert_eq!(r2.message_type, "response_messagetypeparsing");
    assert_eq!(r2.status, "ERROR");
    // Unknown category.
    let f3 = encode_request("weather_report", &vec![]);
    let (r3, _) = session_step(&f3, &mut store, &bc, &ec, &ac).unwrap();
    assert_eq!(r3.unwrap_err().message_type, "response_messagecategory");
    // Known category, unknown subcategory.
    let f4 = encode_request("element_explode", &vec![]);
    let (r4, _) = session_step(&f4, &mut store, &bc, &ec, &ac).unwrap();
    assert_eq!(r4.unwrap_err().message_type, "response_unknownelementcategory");
    // Known handler, ill-shaped body.
    let f5 = encode_request("element_lockelement", &vec![field("x", FieldValue::Int(1))]);
    let (r5, _) = session_step(&f5, &mut store, &bc, &ec, &ac).unwrap();
    let r5 = r5.unwrap_err();
    assert_eq!(r5.message_type, "response_lockelement");
    assert_eq!(r5.status, "ERROR");
    assert_eq!(r5.body, "Lock Element Message is invalid");
    // The other two categories reject unknown subcategories the same way.
    let f6 = encode_request("board_fly", &vec![]);
    let (r6, _) = session_step(&f6, &mut store, &bc, &ec, &ac).unwrap();
    assert_eq!(r6.unwrap_err().message_type, "response_unknownboardcategory");
    let f7 = encode_request("activemember_fly", &vec![]);
    let (r7, _) = session_step(&f7, &mut store, &bc, &ec, &ac).unwrap();
    let r7 = r7.unwrap_err();
    assert_eq!(r7.message_type, "response_unknownactivemembercategory");
    assert_eq!(r7.body, "Active Member has no such subcategory");
}

#[test]
fn create_element_over_the_wire() {
    let mut store = Store::new();
    assert!(store.insert_board(board("B", "host", &["host"])));
    let mut bc = BoardContext::new();
    let mut ec = ElementContext::new();
    let mut cc = ClientContext::new();
    let mut ac = ActiveMemberContext::new();
    let init_b = "{\"messageType\":\"init\",\"eventCategory\":\"element\",\"contextId\":\"B\"}";
    let (watcher, _) = open_session(&mut bc, &mut ec, &mut cc, &mut ac, &store, init_b).unwrap();
    let body = vec![
        field("_id", FieldValue::Str("e9".to_string())),
        field("userId", FieldValue::Str("maker".to_string())),
        field("selected", FieldValue::Bool(false)),
        field("lockedBy", FieldValue::Null),
        field("x", FieldValue::Int(3)),
        field("y", FieldValue::Int(4)),
        field("rotation", FieldValue::Int(0)),
        field("scaleX", FieldValue::Int(1)),
        field("scaleY", FieldValue::Int(1)),
        field("zIndex", FieldValue::Int(2)),
        field("createdAt", FieldValue::Str("2024-01-01T00:00:00Z".to_string())),
        field("text", FieldValue::Str("note".to_string())),
        field("elementType", FieldValue::Str("sticky".to_string())),
        field("boardId", FieldValue::Str("B".to_string())),
        field("color", FieldValue::Str("#0f0".to_string())),
    ];
    let frame = encode_request("element_createelement", &body);
    let (res, emissions) = session_step(&frame, &mut store, &bc, &ec, &ac).unwrap();
    let ok = res.unwrap();
    assert_eq!(ok.message_type, "response_createelement");
    assert_eq!(store.elements.len(), 1);
    assert_eq!(store.elements[0]._id, "e9");
    assert_eq!(store.elements[0].locked_by, None);
    assert_eq!(store.elements[0].z_index, 2);
    assert_eq!(emissions.len(), 1);
    assert_eq!(emissions[0].message.message_type, "element_created");
    assert!(emissions[0].subscribers.contains(&watcher.subscriber));
    // The same id again is refused and nothing further is stored.
    let (again, e2) = session_step(&frame, &mut store, &bc, &ec, &ac).unwrap();
    let again = again.unwrap_err();
    assert_eq!(again.status, "ERROR");
    assert!(e2.is_empty());
    assert_eq!(store.elements.len(), 1);
}

#[test]
fn update_element_with_null_fields_over_the_wire() {
    let mut store = Store::new();
    assert!(store.insert_element(element("e1", "B", 10, 20)));
    store.elements[0].locked_by = Some("editor".to_string());
    let bc = BoardContext::new();
    let ec = ElementContext::new();
    let ac = ActiveMemberContext::new();
    let body = vec![
        field("_id", FieldValue::Str("e1".to_string())),
        field("userId", FieldValue::Str("editor".to_string())),
        field("boardId", FieldValue::Str("B".to_string())),
        field("x", FieldValue::Int(-5)),
        field("y", FieldValue::Null),
        field("text", FieldValue::Str("renamed".to_string())),
    ];
    let frame = encode_request("element_updateelement", &body);
    let (res, emissions) = session_step(&frame, &mut store, &bc, &ec, &ac).unwrap();
    let ok = res.unwrap();
    assert_eq!(ok.message_type, "response_updateelement");
    assert_eq!(ok.body, "{\"id\":\"e1\"}");
    assert_eq!(emissions.len(), 1);
    assert_eq!(
        emissions[0].message.body,
        "{\"_id\":\"e1\",\"userId\":\"editor\",\"x\":-5,\"y\":null,\"rotation\":null,\"scaleX\":null,\"scaleY\":null,\"zIndex\":null,\"text\":\"renamed\",\"color\":null}"
    );
    assert_eq!(store.elements[0].x, -5);
    assert_eq!(store.elements[0].y, 20);
    assert_eq!(store.elements[0].text, "renamed");
}

#[test]
fn lock_response_travels_the_wire_intact() {
    let mut store = Store::new();
    assert!(store.insert_element(element("e1", "B", 0, 0)));
    let bc = BoardContext::new();
    let ec = ElementContext::new();
    let ac = ActiveMemberContext::new();
    let body = vec![
        field("_id", FieldValue::Str("e1".to_string())),
        field("userId", FieldValue::Str("userA".to_string())),
        field("boardId", FieldValue::Str("B".to_string())),
    ];
    let frame = encode_request("element_lockelement", &body);
    let (res, _) = session_step(&frame, &mut store, &bc, &ec, &ac).unwrap();
    let ok = res.unwrap();
    let text = whiteboard_core::wire::encode_server_message(&ok);
    let back = whiteboard_core::wire::decode_server_message(&text).unwrap();
    assert_eq!(back.message_type, "response_lockelement");
    assert_eq!(back.status, "OK");
    assert_eq!(back.body, "{\"_id\":\"e1\",\"userId\":\"userA\"}");
}
