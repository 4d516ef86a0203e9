//! The locking discipline, single and batched, exercised through the
//! element handlers against an in-memory store.

use whiteboard_core::context::ElementContext;
use whiteboard_core::element_msgs::CreateElementMessage;
use whiteboard_core::element_msgs::LockElementMessage;
use whiteboard_core::element_msgs::LockElementsMessage;
use whiteboard_core::element_msgs::MoveElementsMessage;
use whiteboard_core::element_msgs::RemoveElementMessage;
use whiteboard_core::element_msgs::UnlockElementMessage;
use whiteboard_core::element_msgs::UnlockElementsMessage;
use whiteboard_core::element_msgs::UpdateElementMessage;
use whiteboard_core::client_ops::unlock_all_for_user;
use whiteboard_core::records::Element;
use whiteboard_core::store::Store;

fn element(id: &str, board: &str, locked_by: Option<&str>, x: i64, y: i64) -> Element {
    Element {
        _id: id.to_string(),
        selected: false,
        locked_by: locked_by.map(|u| u.to_string()),
        x,
        y,
        rotation: 0,
        scale_x: 1,
        scale_y: 1,
        z_index: 0,
        created_at: "2024-01-01T00:00:00Z".to_string(),
        text: "hello".to_string(),
        element_type: "note".to_string(),
        board_id: board.to_string(),
        color: "#fff".to_string(),
    }
}

fn lock_msg(id: &str, user: &str) -> LockElementMessage {
    LockElementMessage {
        _id: id.to_string(),
        user_id: user.to_string(),
        board_id: "b1".to_string(),
    }
}

fn unlock_msg(id: &str, user: &str) -> UnlockElementMessage {
    UnlockElementMessage {
        _id: id.to_string(),
        user_id: user.to_string(),
        board_id: "b1".to_string(),
    }
}

#[test]
fn lock_unlock_single_element_walkthrough() {
    // Create an element unlocked, then walk the transition table with two
    // users and check every answer and the resulting holder.
    let mut store = Store::new();
    let context = ElementContext::new();
    let create = CreateElementMessage {
        _id: "e1".to_string(),
        selected: false,
        user_id: "userA".to_string(),
        locked_by: None,
        x: 1,
        y: 2,
        rotation: 0,
        scale_x: 1,
        scale_y: 1,
        z_index: 3,
        created_at: "2024-01-01T00:00:00Z".to_string(),
        text: "t".to_string(),
        element_type: "note".to_string(),
        board_id: "b1".to_string(),
        color: "#abc".to_string(),
    };
    let (created, _) = create.handle(&mut store, &context);
    assert!(created.is_ok());
    assert_eq!(store.elements[0].locked_by, None);

    // userA acquires the lock.
    let (r1, e1) = lock_msg("e1", "userA").handle(&mut store, &context);
    assert!(r1.is_ok());
    assert_eq!(e1.len(), 1);
    assert_eq!(store.elements[0].locked_by, Some("userA".to_string()));

    // userB is refused while userA holds it.
    let (r2, e2) = lock_msg("e1", "userB").handle(&mut store, &context);
    let err2 = r2.unwrap_err();
    assert_eq!(err2.status, "ERROR");
    assert!(err2.body.contains("already locked by someone else"));
    assert!(e2.is_empty());
    assert_eq!(store.elements[0].locked_by, Some("userA".to_string()));

    // userB cannot unlock what userA holds.
    let (r3, e3) = unlock_msg("e1", "userB").handle(&mut store, &context);
    let err3 = r3.unwrap_err();
    assert!(err3.body.contains("currently locked by someone else"));
    assert!(e3.is_empty());
    assert_eq!(store.elements[0].locked_by, Some("userA".to_string()));

    // userA releases.
    let (r4, e4) = unlock_msg("e1", "userA").handle(&mut store, &context);
    assert!(r4.is_ok());
    assert_eq!(e4.len(), 1);
    assert_eq!(store.elements[0].locked_by, None);

    // userA locks again: a fresh acquisition.
    let (r5, _) = lock_msg("e1", "userA").handle(&mut store, &context);
    assert!(r5.is_ok());
    assert_eq!(store.elements[0].locked_by, Some("userA".to_string()));
}

#[test]
fn relock_by_holder_is_idempotent() {
    let mut store = Store::new();
    let context = ElementContext::new();
    assert!(store.insert_element(element("e1", "b1", Some("userA"), 0, 0)));
    let (r, emissions) = lock_msg("e1", "userA").handle(&mut store, &context);
    // Re-locking by the holder succeeds distinctly, changes nothing and
    // announces nothing.
    let ok = r.unwrap();
    assert_eq!(ok.status, "OK");
    assert!(ok.body.contains("already locked by yourself"));
    assert!(emissions.is_empty());
    assert_eq!(store.elements[0].locked_by, Some("userA".to_string()));
}

#[test]
fn unlock_of_unlocked_element_is_not_destructive() {
    let mut store = Store::new();
    let context = ElementContext::new();
    assert!(store.insert_element(element("e1", "b1", None, 0, 0)));
    let (r, emissions) = unlock_msg("e1", "userA").handle(&mut store, &context);
    let err = r.unwrap_err();
    assert!(err.body.contains("already unlocked"));
    assert!(emissions.is_empty());
    assert_eq!(store.elements[0].locked_by, None);
}

#[test]
fn lock_of_unknown_element_fails() {
    let mut store = Store::new();
    let context = ElementContext::new();
    let (r, emissions) = lock_msg("ghost", "userA").handle(&mut store, &context);
    let err = r.unwrap_err();
    assert!(err.body.contains("Element not found"));
    assert!(emissions.is_empty());
}

#[test]
fn batch_lock_is_all_or_nothing() {
    // Three elements, one locked by another user: the whole batch is
    // rejected and every element keeps its lock and geometry.
    let mut store = Store::new();
    let context = ElementContext::new();
    assert!(store.insert_element(element("e1", "b1", None, 10, 10)));
    assert!(store.insert_element(element("e2", "b1", Some("intruder"), 20, 20)));
    assert!(store.insert_element(element("e3", "b1", Some("mover"), 30, 30)));
    let msg = LockElementsMessage {
        ids: vec!["e1".to_string(), "e2".to_string(), "e3".to_string()],
        user_id: "mover".to_string(),
        board_id: "b1".to_string(),
    };
    let (r, emissions) = msg.handle(&mut store, &context);
    let err = r.unwrap_err();
    assert!(err.body.contains("locked by another user"));
    assert!(emissions.is_empty());
    assert_eq!(store.elements[0].locked_by, None);
    assert_eq!(store.elements[1].locked_by, Some("intruder".to_string()));
    assert_eq!(store.elements[2].locked_by, Some("mover".to_string()));
}

#[test]
fn batch_lock_applies_to_every_listed_element() {
    let mut store = Store::new();
    let context = ElementContext::new();
    assert!(store.insert_element(element("e1", "b1", None, 0, 0)));
    assert!(store.insert_element(element("e2", "b1", Some("mover"), 0, 0)));
    assert!(store.insert_element(element("e3", "b1", None, 0, 0)));
    let msg = LockElementsMessage {
        ids: vec!["e1".to_string(), "e2".to_string()],
        user_id: "mover".to_string(),
        board_id: "b1".to_string(),
    };
    let (r, emissions) = msg.handle(&mut store, &context);
    assert!(r.is_ok());
    assert_eq!(emissions.len(), 2);
    assert_eq!(store.elements[0].locked_by, Some("mover".to_string()));
    assert_eq!(store.elements[1].locked_by, Some("mover".to_string()));
    assert_eq!(store.elements[2].locked_by, None);
}

#[test]
fn batch_unlock_is_all_or_nothing() {
    let mut store = Store::new();
    let context = ElementContext::new();
    assert!(store.insert_element(element("e1", "b1", Some("mover"), 0, 0)));
    assert!(store.insert_element(element("e2", "b1", Some("intruder"), 0, 0)));
    let msg = UnlockElementsMessage {
        ids: vec!["e1".to_string(), "e2".to_string()],
        user_id: "mover".to_string(),
        board_id: "b1".to_string(),
    };
    let (r, emissions) = msg.handle(&mut store, &context);
    assert!(r.is_err());
    assert!(emissions.is_empty());
    assert_eq!(store.elements[0].locked_by, Some("mover".to_string()));
    assert_eq!(store.elements[1].locked_by, Some("intruder".to_string()));
}

#[test]
fn batch_move_is_all_or_nothing_and_keeps_geometry() {
    let mut store = Store::new();
    let context = ElementContext::new();
    assert!(store.insert_element(element("e1", "b1", None, 100, 200)));
    assert!(store.insert_element(element("e2", "b1", Some("intruder"), 300, 400)));
    let msg = MoveElementsMessage {
        ids: vec!["e1".to_string(), "e2".to_string()],
        user_id: "mover".to_string(),
        board_id: "b1".to_string(),
        x_offset: 5,
        y_offset: -7,
    };
    let (r, emissions) = msg.handle(&mut store, &context);
    assert!(r.is_err());
    assert!(emissions.is_empty());
    assert_eq!(store.elements[0].x, 100);
    assert_eq!(store.elements[0].y, 200);
    assert_eq!(store.elements[1].x, 300);
    assert_eq!(store.elements[1].y, 400);
}

#[test]
fn batch_move_shifts_and_locks() {
    let mut store = Store::new();
    let context = ElementContext::new();
    assert!(store.insert_element(element("e1", "b1", None, 100, 200)));
    assert!(store.insert_element(element("e2", "b1", Some("mover"), -3, 4)));
    let msg = MoveElementsMessage {
        ids: vec!["e1".to_string(), "e2".to_string()],
        user_id: "mover".to_string(),
        board_id: "b1".to_string(),
        x_offset: 5,
        y_offset: -7,
    };
    let (r, emissions) = msg.handle(&mut store, &context);
    assert!(r.is_ok());
    assert_eq!(emissions.len(), 2);
    assert_eq!(store.elements[0].x, 105);
    assert_eq!(store.elements[0].y, 193);
    assert_eq!(store.elements[0].locked_by, Some("mover".to_string()));
    assert_eq!(store.elements[1].x, 2);
    assert_eq!(store.elements[1].y, -3);
}

#[test]
fn update_requires_the_lock() {
    let mut store = Store::new();
    let context = ElementContext::new();
    assert!(store.insert_element(element("e1", "b1", None, 0, 0)));
    let mut msg = UpdateElementMessage {
        _id: "e1".to_string(),
        user_id: "editor".to_string(),
        board_id: "b1".to_string(),
        x: Some(9),
        y: None,
        rotation: None,
        scale_x: None,
        scale_y: None,
        z_index: Some(7),
        text: Some("edited".to_string()),
        color: None,
    };
    // Unlocked: must lock first.
    let (r1, _) = msg.handle(&mut store, &context);
    assert!(r1.unwrap_err().body.contains("needs to be locked first"));
    assert_eq!(store.elements[0].x, 0);

    // Locked by someone else: conflict.
    store.elements[0].locked_by = Some("other".to_string());
    let (r2, _) = msg.handle(&mut store, &context);
    assert!(r2.unwrap_err().body.contains("locked by someone else"));

    // Locked by the editor: the listed fields change, the rest stay.
    store.elements[0].locked_by = Some("editor".to_string());
    msg.user_id = "editor".to_string();
    let (r3, emissions) = msg.handle(&mut store, &context);
    assert!(r3.is_ok());
    assert_eq!(emissions.len(), 1);
    assert_eq!(store.elements[0].x, 9);
    assert_eq!(store.elements[0].y, 0);
    assert_eq!(store.elements[0].z_index, 7);
    assert_eq!(store.elements[0].text, "edited");
    assert_eq!(store.elements[0].color, "#fff");
    assert_eq!(store.elements[0].locked_by, Some("editor".to_string()));
}

#[test]
fn remove_element_deletes_and_reports_unknown() {
    let mut store = Store::new();
    let context = ElementContext::new();
    assert!(store.insert_element(element("e1", "b1", None, 0, 0)));
    let msg = RemoveElementMessage {
        _id: "e1".to_string(),
        board_id: "b1".to_string(),
        user_id: "u".to_string(),
    };
    let (r, emissions) = msg.handle(&mut store, &context);
    assert!(r.is_ok());
    assert_eq!(emissions.len(), 1);
    assert!(store.elements.is_empty());
    let (r2, _) = msg.handle(&mut store, &context);
    assert!(r2.unwrap_err().body.contains("No Element found to delete"));
}

#[test]
fn release_all_locks_of_a_user_is_idempotent() {
    let mut store = Store::new();
    let context = ElementContext::new();
    assert!(store.insert_element(element("e1", "b1", Some("ghost"), 0, 0)));
    assert!(store.insert_element(element("e2", "b1", Some("other"), 0, 0)));
    assert!(store.insert_element(element("e3", "b1", None, 0, 0)));
    let user = "ghost".to_string();
    let board = "b1".to_string();
    let (ids, emissions) = unlock_all_for_user(&user, &board, &mut store, &context);
    assert_eq!(ids, vec!["e1".to_string()]);
    assert_eq!(emissions.len(), 1);
    assert_eq!(store.elements[0].locked_by, None);
    assert_eq!(store.elements[1].locked_by, Some("other".to_string()));
    // A second pass finds nothing to release and changes nothing.
    let (ids2, emissions2) = unlock_all_for_user(&user, &board, &mut store, &context);
    assert!(ids2.is_empty());
    assert!(emissions2.is_empty());
    assert_eq!(store.elements[1].locked_by, Some("other".to_string()));
}

#[test]
fn move_saturates_at_the_coordinate_range() {
    let mut store = Store::new();
    let context = ElementContext::new();
    assert!(store.insert_element(element("e1", "b1", None, i64::MAX - 1, i64::MIN + 1)));
    let msg = MoveElementsMessage {
        ids: vec!["e1".to_string()],
        user_id: "mover".to_string(),
        board_id: "b1".to_string(),
        x_offset: 10,
        y_offset: -10,
    };
    let (r, _) = msg.handle(&mut store, &context);
    assert!(r.is_ok());
    assert_eq!(store.elements[0].x, i64::MAX);
    assert_eq!(store.elements[0].y, i64::MIN);
}
