//! Board membership, active-member presence and client records.

use whiteboard_core::active_member_msgs::ChangeActiveBoardMessage;
use whiteboard_core::active_member_msgs::CreateActiveMemberMessage;
use whiteboard_core::active_member_msgs::RemoveActiveMemberMessage;
use whiteboard_core::active_member_msgs::UpdatePositionMessage;
use whiteboard_core::board_msgs::MemberAddMessage;
use whiteboard_core::board_msgs::MemberRemoveMessage;
use whiteboard_core::category::EventCategory;
use whiteboard_core::category::WebTransportMessageMainCategory;
use whiteboard_core::client_ops::create_or_update_client;
use whiteboard_core::client_ops::delete_client;
use whiteboard_core::client_ops::ClientUpsertOutcome;
use whiteboard_core::client_ops::CreateOrUpdateClientPayload;
use whiteboard_core::context::ActiveMemberContext;
use whiteboard_core::context::BoardContext;
use whiteboard_core::context::ClientContext;
use whiteboard_core::records::Board;
use whiteboard_core::records::DeviceType;
use whiteboard_core::records::User;
use whiteboard_core::server_msg::ServerMessage;
use whiteboard_core::store::Store;

fn board(id: &str, host: &str, members: &[&str]) -> Board {
    Board {
        _id: id.to_string(),
        name: "canvas".to_string(),
        host: host.to_string(),
        allowed_members: members.iter().map(|m| m.to_string()).collect(),
    }
}

fn user(id: &str) -> User {
    User {
        _id: id.to_string(),
        name: format!("name-{}", id),
        email: format!("{}@example.test", id),
        password: "pw".to_string(),
        active_client: None,
    }
}

#[test]
fn add_member_then_duplicate_add_conflicts() {
    // Board with allowed members [host]: adding userX extends the list,
    // adding userX again conflicts and leaves the members unchanged.
    let mut store = Store::new();
    assert!(store.insert_board(board("B", "host", &["host"])));
    assert!(store.insert_user(user("userX")));
    let context = BoardContext::new();
    let msg = MemberAddMessage { user_id: "userX".to_string(), board_id: "B".to_string() };
    let (r1, e1) = msg.handle(&mut store, &context);
    assert!(r1.is_ok());
    assert_eq!(e1.len(), 1);
    assert_eq!(
        store.boards[0].allowed_members,
        vec!["host".to_string(), "userX".to_string()]
    );
    let (r2, e2) = msg.handle(&mut store, &context);
    let err = r2.unwrap_err();
    assert_eq!(err.status, "ERROR");
    assert!(err.body.contains("Member already part of this board"));
    assert!(e2.is_empty());
    assert_eq!(
        store.boards[0].allowed_members,
        vec!["host".to_string(), "userX".to_string()]
    );
}

#[test]
fn add_member_requires_a_stored_user_and_board() {
    let mut store = Store::new();
    assert!(store.insert_board(board("B", "host", &["host"])));
    let context = BoardContext::new();
    let unknown_user =
        MemberAddMessage { user_id: "ghost".to_string(), board_id: "B".to_string() };
    let (r1, _) = unknown_user.handle(&mut store, &context);
    assert!(r1.unwrap_err().body.contains("No User found with that ID"));
    let unknown_board =
        MemberAddMessage { user_id: "ghost".to_string(), board_id: "Z".to_string() };
    let (r2, _) = unknown_board.handle(&mut store, &context);
    assert!(r2.is_err());
    assert_eq!(store.boards[0].allowed_members, vec!["host".to_string()]);
}

#[test]
fn remove_member_and_host_protection() {
    let mut store = Store::new();
    assert!(store.insert_board(board("B", "host", &["host", "userX"])));
    let context = BoardContext::new();
    let remove_x =
        MemberRemoveMessage { user_id: "userX".to_string(), board_id: "B".to_string() };
    let (r1, e1) = remove_x.handle(&mut store, &context);
    assert!(r1.is_ok());
    assert_eq!(e1.len(), 1);
    assert_eq!(store.boards[0].allowed_members, vec!["host".to_string()]);
    // Removing someone who is not on the board is rejected.
    let (r2, _) = remove_x.handle(&mut store, &context);
    assert!(r2.unwrap_err().body.contains("Member not part of this board"));
    // The host is always a member: removing the host is rejected.
    let remove_host =
        MemberRemoveMessage { user_id: "host".to_string(), board_id: "B".to_string() };
    let (r3, _) = remove_host.handle(&mut store, &context);
    assert!(r3.unwrap_err().body.contains("Board host cannot be removed"));
    assert_eq!(store.boards[0].allowed_members, vec!["host".to_string()]);
}

#[test]
fn active_member_lifecycle() {
    let mut store = Store::new();
    let context = ActiveMemberContext::new();
    let join = CreateActiveMemberMessage {
        user_id: "u1".to_string(),
        board_id: "B".to_string(),
    };
    let (r1, e1) = join.handle(&mut store, &context);
    assert!(r1.is_ok());
    assert_eq!(e1.len(), 1);
    assert_eq!(store.active_members.len(), 1);
    assert_eq!(store.active_members[0].board_id, "B");
    assert_eq!(store.active_members[0].x, 0);
    assert_eq!(store.active_members[0].y, 0);

    // A user has at most one presence.
    let (r2, _) = join.handle(&mut store, &context);
    assert!(r2.is_err());
    assert_eq!(store.active_members.len(), 1);

    // The cursor moves.
    let mv = UpdatePositionMessage {
        user_id: "u1".to_string(),
        board_id: "B".to_string(),
        x: 17,
        y: -4,
    };
    let (r3, e3) = mv.handle(&mut store, &context);
    assert!(r3.is_ok());
    assert_eq!(e3.len(), 1);
    assert_eq!(e3[0].message.message_type, "activemember_positionupdated");
    assert_eq!(e3[0].message.body, "{\"userId\":\"u1\",\"x\":17,\"y\":-4}");
    assert_eq!(store.active_members[0].x, 17);
    assert_eq!(store.active_members[0].y, -4);

    // Switching boards resets the cursor and announces both sides.
    let switch = ChangeActiveBoardMessage {
        user_id: "u1".to_string(),
        new_board_id: "C".to_string(),
    };
    let (r4, e4) = switch.handle(&mut store, &context);
    assert!(r4.is_ok());
    assert_eq!(e4.len(), 2);
    assert_eq!(e4[0].message.message_type, "activemember_removed");
    assert_eq!(e4[1].message.message_type, "activemember_created");
    assert_eq!(store.active_members[0].board_id, "C");
    assert_eq!(store.active_members[0].x, 0);

    // Leaving deletes the presence; the confirmation reports one record.
    let leave = RemoveActiveMemberMessage {
        user_id: "u1".to_string(),
        board_id: "C".to_string(),
    };
    let (r5, _) = leave.handle(&mut store, &context);
    let ok = r5.unwrap();
    assert_eq!(ok.body, "1");
    assert!(store.active_members.is_empty());
    let (r6, _) = leave.handle(&mut store, &context);
    assert!(r6.is_err());
}

#[test]
fn client_upsert_and_logout() {
    let mut store = Store::new();
    let context = ClientContext::new();
    let payload = CreateOrUpdateClientPayload {
        client_id: "dev-1".to_string(),
        user_id: "u1".to_string(),
        device_type: "Web".to_string(),
    };
    // First login creates, silently.
    let (o1, e1) = create_or_update_client(&payload, &mut store, &context);
    assert_eq!(o1, ClientUpsertOutcome::Created);
    assert!(e1.is_empty());
    assert_eq!(store.clients.len(), 1);
    assert_eq!(store.clients[0].device_type, DeviceType::Web);

    // The same device again changes nothing.
    let (o2, e2) = create_or_update_client(&payload, &mut store, &context);
    assert_eq!(o2, ClientUpsertOutcome::Unchanged);
    assert!(e2.is_empty());

    // A new device replaces the record and announces the change.
    let changed = CreateOrUpdateClientPayload {
        client_id: "dev-2".to_string(),
        user_id: "u1".to_string(),
        device_type: "IOS".to_string(),
    };
    let (o3, e3) = create_or_update_client(&changed, &mut store, &context);
    assert_eq!(o3, ClientUpsertOutcome::Updated);
    assert_eq!(e3.len(), 1);
    assert_eq!(e3[0].message.message_type, "client_changed");
    assert_eq!(
        e3[0].message.body,
        "{\"userId\":\"u1\",\"deviceType\":\"IOS\",\"clientId\":\"dev-2\"}"
    );
    assert_eq!(store.clients.len(), 1);
    assert_eq!(store.clients[0].client_id, "dev-2");
    assert_eq!(store.clients[0].device_type, DeviceType::Ios);

    // Logout deletes the record and announces it with the raw user id.
    let user_id = "u1".to_string();
    let (deleted, e4) = delete_client(&user_id, &mut store, &context);
    assert!(deleted);
    assert_eq!(e4.len(), 1);
    assert_eq!(e4[0].message.message_type, "client_removed");
    assert_eq!(e4[0].message.body, "u1");
    assert!(store.clients.is_empty());
    let (deleted_again, _) = delete_client(&user_id, &mut store, &context);
    assert!(!deleted_again);
}

#[test]
fn created_board_lists_its_creator_as_host_and_sole_member() {
    let mut store = Store::new();
    let id = store
        .create_board("Sprint wall".to_string(), "host".to_string())
        .unwrap();
    assert_eq!(store.boards.len(), 1);
    assert_eq!(store.boards[0]._id, id);
    assert_eq!(store.boards[0].name, "Sprint wall");
    assert_eq!(store.boards[0].host, "host");
    assert_eq!(store.boards[0].allowed_members, vec!["host".to_string()]);
}

#[test]
fn category_and_device_names() {
    assert!(matches!(
        EventCategory::get_category_by_string("board".to_string()),
        Ok(EventCategory::Board)
    ));
    assert!(matches!(
        EventCategory::get_category_by_string("active_member".to_string()),
        Ok(EventCategory::ActiveMember)
    ));
    assert!(EventCategory::get_category_by_string("activemember".to_string()).is_err());
    assert!(matches!(
        WebTransportMessageMainCategory::to_enum("activemember"),
        WebTransportMessageMainCategory::ActiveMember
    ));
    assert!(matches!(
        WebTransportMessageMainCategory::to_enum("weather"),
        WebTransportMessageMainCategory::Unknown
    ));
    assert_eq!(DeviceType::to_enum("Web".to_string()), DeviceType::Web);
    assert_eq!(DeviceType::to_enum("IOS".to_string()), DeviceType::Ios);
    assert_eq!(DeviceType::to_enum("toaster".to_string()), DeviceType::Other);
    assert_eq!(DeviceType::Android.to_string(), "Android");
}

#[test]
fn server_message_constructors_shape_the_envelope() {
    let ok = ServerMessage::ok_response("lockelement".to_string(), "body".to_string());
    assert_eq!(ok.message_type, "response_lockelement");
    assert_eq!(ok.status, "OK");
    let err = ServerMessage::error_response("lockelement".to_string(), "body".to_string());
    assert_eq!(err.message_type, "response_lockelement");
    assert_eq!(err.status, "ERROR");
    let ev = ServerMessage::event("element_moved".to_string(), "body".to_string());
    assert_eq!(ev.message_type, "element_moved");
    assert_eq!(ev.status, "OK");
    let raw = ServerMessage::new("a".to_string(), "b".to_string(), "c".to_string());
    assert_eq!(raw.message_type, "a");
    assert_eq!(raw.status, "b");
    assert_eq!(raw.body, "c");
}
