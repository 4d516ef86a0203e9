//! The domain contexts: one event hub per domain, with the domain's event
//! types and its emit operation.
//!
//! Board and client emission first re-validates that the target record
//! still exists in the store and emits nothing for a record deleted in the
//! meantime; element and active-member emission does not re-validate, so
//! their callers must have confirmed existence as part of the triggering
//! operation.

use vstd::prelude::*;
use crate::hub::Emission;
use crate::hub::EventHub;
use crate::hub::is_subscribed;
use crate::server_msg::ServerMessage;
use crate::store::Store;
use crate::store::has_board;
use crate::store::has_client_for;

verus! {

/// What happened to an element.
#[derive(Clone, Copy, Debug, PartialEq, Eq, Structural)]
pub enum ElementEventType {
    Created,
    Removed,
    Moved,
    Locked,
    Unlocked,
    Updated,
}

/// The wire name of an element event.
pub open spec fn element_event_name(t: ElementEventType) -> Seq<char> {
    match t {
        ElementEventType::Created => "element_created"@,
        ElementEventType::Removed => "element_removed"@,
        ElementEventType::Moved => "element_moved"@,
        ElementEventType::Locked => "element_locked"@,
        ElementEventType::Unlocked => "element_unlocked"@,
        ElementEventType::Updated => "element_updated"@,
    }
}

impl ElementEventType {
    /// The wire name of this event.
    pub fn to_string(&self) -> (r: String)
        ensures
            r@ == element_event_name(*self),
    {
        match self {
            ElementEventType::Created => "element_created".to_owned(),
            ElementEventType::Removed => "element_removed".to_owned(),
            ElementEventType::Moved => "element_moved".to_owned(),
            ElementEventType::Locked => "element_locked".to_owned(),
            ElementEventType::Unlocked => "element_unlocked".to_owned(),
            ElementEventType::Updated => "element_updated".to_owned(),
        }
    }
}

/// One element event: its kind and its already-encoded payload.
pub struct ElementEvent {
    pub event_type: ElementEventType,
    pub body: String,
}

/// What happened to a board.
#[derive(Clone, Copy, Debug, PartialEq, Eq, Structural)]
pub enum BoardEventType {
    MemberAdded,
    MemberRemoved,
}

/// The wire name of a board event.
pub open spec fn board_event_name(t: BoardEventType) -> Seq<char> {
    match t {
        BoardEventType::MemberAdded => "board_memberadded"@,
        BoardEventType::MemberRemoved => "board_memberremoved"@,
    }
}

impl BoardEventType {
    /// The wire name of this event.
    pub fn to_string(&self) -> (r: String)
        ensures
            r@ == board_event_name(*self),
    {
        match self {
            BoardEventType::MemberAdded => "board_memberadded".to_owned(),
            BoardEventType::MemberRemoved => "board_memberremoved".to_owned(),
        }
    }
}

/// One board event: its kind and its already-encoded payload.
pub struct BoardEvent {
    pub event_type: BoardEventType,
    pub body: String,
}

/// What happened to a client record.
#[derive(Clone, Copy, Debug, PartialEq, Eq, Structural)]
pub enum ClientEventType {
    Deleted,
    Changed,
}

/// The wire name of a client event.
pub open spec fn client_event_name(t: ClientEventType) -> Seq<char> {
    match t {
        ClientEventType::Deleted => "client_removed"@,
        ClientEventType::Changed => "client_changed"@,
    }
}

impl ClientEventType {
    /// The wire name of this event.
    pub fn to_string(&self) -> (r: String)
        ensures
            r@ == client_event_name(*self),
    {
        match self {
            ClientEventType::Deleted => "client_removed".to_owned(),
            ClientEventType::Changed => "client_changed".to_owned(),
        }
    }
}

/// One client event: its kind and its already-encoded payload.
pub struct ClientEvent {
    pub event_type: ClientEventType,
    pub body: String,
}

/// What happened to an active member.
#[derive(Clone, Copy, Debug, PartialEq, Eq, Structural)]
pub enum ActiveMemberEventType {
    Created,
    Removed,
    PositionUpdated,
}

/// The wire name of an active-member event.
pub open spec fn active_member_event_name(t: ActiveMemberEventType) -> Seq<char> {
    match t {
        ActiveMemberEventType::Created => "activemember_created"@,
        ActiveMemberEventType::Removed => "activemember_removed"@,
        ActiveMemberEventType::PositionUpdated => "activemember_positionupdated"@,
    }
}

impl ActiveMemberEventType {
    /// The wire name of this event.
    pub fn to_string(&self) -> (r: String)
        ensures
            r@ == active_member_event_name(*self),
    {
        match self {
            ActiveMemberEventType::Created => "activemember_created".to_owned(),
            ActiveMemberEventType::Removed => "activemember_removed".to_owned(),
            ActiveMemberEventType::PositionUpdated => "activemember_positionupdated".to_owned(),
        }
    }
}

/// One active-member event: its kind and its already-encoded payload.
pub struct ActiveMemberEvent {
    pub event_type: ActiveMemberEventType,
    pub body: String,
}

/// The emission really carries the event: the subscribers of the key, each
/// once, and the event as a push frame.
pub open spec fn emission_delivers(
    em: Emission,
    hub: EventHub,
    key: Seq<char>,
    name: Seq<char>,
    body: String,
) -> bool {
    &&& forall|t: u64| em.subscribers@.contains(t) == is_subscribed(hub.topics@, key, t)
    &&& forall|a: int, b: int| 0 <= a < b < em.subscribers@.len() ==> em.subscribers@[a]
        != em.subscribers@[b]
    &&& em.message.message_type@ == name
    &&& em.message.status@ == "OK"@
    &&& em.message.body == body
}

/// Element events fanned out per board id.
pub struct ElementContext {
    pub subjects: EventHub,
}

impl ElementContext {
    /// A context with no topics.
    pub fn new() -> (r: ElementContext)
        ensures
            r.subjects.wf(),
            r.subjects.topics@.len() == 0,
    {
        ElementContext { subjects: EventHub::new() }
    }

    /// Ensures this board's topic exists; idempotent.
    pub fn get_or_create_subject(&mut self, board_id: &String)
        requires
            old(self).subjects.wf(),
        ensures
            final(self).subjects.wf(),
            crate::hub::has_topic(final(self).subjects.topics@, board_id@),
            final(self).subjects.next_subscriber == old(self).subjects.next_subscriber,
            forall|k: Seq<char>, s: u64|
                is_subscribed(final(self).subjects.topics@, k, s) == is_subscribed(
                    old(self).subjects.topics@,
                    k,
                    s,
                ),
    {
        self.subjects.get_or_create(board_id);
    }

    /// Ensures this board's topic exists and returns the board id back.
    pub fn get_or_create_subject_return_board_id(&mut self, board_id: &String) -> (r: String)
        requires
            old(self).subjects.wf(),
        ensures
            final(self).subjects.wf(),
            r@ == board_id@,
            crate::hub::has_topic(final(self).subjects.topics@, board_id@),
            final(self).subjects.next_subscriber == old(self).subjects.next_subscriber,
            forall|k: Seq<char>, s: u64|
                is_subscribed(final(self).subjects.topics@, k, s) == is_subscribed(
                    old(self).subjects.topics@,
                    k,
                    s,
                ),
    {
        self.subjects.get_or_create(board_id);
        board_id.clone()
    }

    /// The event as deliveries: no existence re-check for elements.
    pub fn emit_element_event(&self, board_id: &str, event: ElementEvent) -> (em: Emission)
        requires
            self.subjects.wf(),
        ensures
            emission_delivers(
                em,
                self.subjects,
                board_id@,
                element_event_name(event.event_type),
                event.body,
            ),
    {
        let subscribers = self.subjects.publish(board_id);
        let message = ServerMessage::event(event.event_type.to_string(), event.body);
        Emission { subscribers, message }
    }
}

/// Board events fanned out per board id.
pub struct BoardContext {
    pub subjects: EventHub,
}

impl BoardContext {
    /// A context with no topics.
    pub fn new() -> (r: BoardContext)
        ensures
            r.subjects.wf(),
            r.subjects.topics@.len() == 0,
    {
        BoardContext { subjects: EventHub::new() }
    }

    /// Ensures this board's topic exists; idempotent.
    pub fn get_or_create_subject(&mut self, board_id: &String)
        requires
            old(self).subjects.wf(),
        ensures
            final(self).subjects.wf(),
            crate::hub::has_topic(final(self).subjects.topics@, board_id@),
            final(self).subjects.next_subscriber == old(self).subjects.next_subscriber,
            forall|k: Seq<char>, s: u64|
                is_subscribed(final(self).subjects.topics@, k, s) == is_subscribed(
                    old(self).subjects.topics@,
                    k,
                    s,
                ),
    {
        self.subjects.get_or_create(board_id);
    }

    /// Ensures this board's topic exists and returns the board id back.
    pub fn get_or_create_subject_return_board_id(&mut self, board_id: &String) -> (r: String)
        requires
            old(self).subjects.wf(),
        ensures
            final(self).subjects.wf(),
            r@ == board_id@,
            crate::hub::has_topic(final(self).subjects.topics@, board_id@),
            final(self).subjects.next_subscriber == old(self).subjects.next_subscriber,
            forall|k: Seq<char>, s: u64|
                is_subscribed(final(self).subjects.topics@, k, s) == is_subscribed(
                    old(self).subjects.topics@,
                    k,
                    s,
                ),
    {
        self.subjects.get_or_create(board_id);
        board_id.clone()
    }

    /// The event as deliveries, after re-validating that the board still
    /// exists: a board deleted in the meantime is broadcast about to no
    /// one.
    pub fn emit_board_event(&self, store: &Store, board_id: &str, event: BoardEvent) -> (r: Option<
        Emission,
    >)
        requires
            self.subjects.wf(),
        ensures
            r is Some == has_board(store.boards@, board_id@),
            match r {
                Some(em) => emission_delivers(
                    em,
                    self.subjects,
                    board_id@,
                    board_event_name(event.event_type),
                    event.body,
                ),
                None => true,
            },
    {
        if store.find_board(board_id).is_none() {
            return None;
        }
        let subscribers = self.subjects.publish(board_id);
        let message = ServerMessage::event(event.event_type.to_string(), event.body);
        Some(Emission { subscribers, message })
    }
}

/// Client events fanned out per user id.
pub struct ClientContext {
    pub subjects: EventHub,
}

impl ClientContext {
    /// A context with no topics.
    pub fn new() -> (r: ClientContext)
        ensures
            r.subjects.wf(),
            r.subjects.topics@.len() == 0,
    {
        ClientContext { subjects: EventHub::new() }
    }

    /// Ensures this user's topic exists; idempotent.
    pub fn get_or_create_subject(&mut self, user_id: &String)
        requires
            old(self).subjects.wf(),
        ensures
            final(self).subjects.wf(),
            crate::hub::has_topic(final(self).subjects.topics@, user_id@),
            final(self).subjects.next_subscriber == old(self).subjects.next_subscriber,
            forall|k: Seq<char>, s: u64|
                is_subscribed(final(self).subjects.topics@, k, s) == is_subscribed(
                    old(self).subjects.topics@,
                    k,
                    s,
                ),
    {
        self.subjects.get_or_create(user_id);
    }

    /// Ensures this user's topic exists and returns the user id back.
    pub fn get_or_create_subject_return_user_id(&mut self, user_id: &String) -> (r: String)
        requires
            old(self).subjects.wf(),
        ensures
            final(self).subjects.wf(),
            r@ == user_id@,
            crate::hub::has_topic(final(self).subjects.topics@, user_id@),
            final(self).subjects.next_subscriber == old(self).subjects.next_subscriber,
            forall|k: Seq<char>, s: u64|
                is_subscribed(final(self).subjects.topics@, k, s) == is_subscribed(
                    old(self).subjects.topics@,
                    k,
                    s,
                ),
    {
        self.subjects.get_or_create(user_id);
        user_id.clone()
    }

    /// The event as deliveries, after re-validating that the user still
    /// has a client record: a client logged out in the meantime is
    /// broadcast about to no one.
    pub fn emit_client_event(&self, store: &Store, user_id: &str, event: ClientEvent) -> (r: Option<
        Emission,
    >)
        requires
            self.subjects.wf(),
        ensures
            r is Some == has_client_for(store.clients@, user_id@),
            match r {
                Some(em) => emission_delivers(
                    em,
                    self.subjects,
                    user_id@,
                    client_event_name(event.event_type),
                    event.body,
                ),
                None => true,
            },
    {
        if store.find_client_by_user(user_id).is_none() {
            return None;
        }
        let subscribers = self.subjects.publish(user_id);
        let message = ServerMessage::event(event.event_type.to_string(), event.body);
        Some(Emission { subscribers, message })
    }
}

/// Active-member events fanned out per board id.
pub struct ActiveMemberContext {
    pub subjects: EventHub,
}

impl ActiveMemberContext {
    /// A context with no topics.
    pub fn new() -> (r: ActiveMemberContext)
        ensures
            r.subjects.wf(),
            r.subjects.topics@.len() == 0,
    {
        ActiveMemberContext { subjects: EventHub::new() }
    }

    /// Ensures this board's topic exists; idempotent.
    pub fn get_or_create_subject(&mut self, board_id: &String)
        requires
            old(self).subjects.wf(),
        ensures
            final(self).subjects.wf(),
            crate::hub::has_topic(final(self).subjects.topics@, board_id@),
            final(self).subjects.next_subscriber == old(self).subjects.next_subscriber,
            forall|k: Seq<char>, s: u64|
                is_subscribed(final(self).subjects.topics@, k, s) == is_subscribed(
                    old(self).subjects.topics@,
                    k,
                    s,
                ),
    {
        self.subjects.get_or_create(board_id);
    }

    /// Ensures this board's topic exists and returns the board id back.
    pub fn get_or_create_subject_return_board_id(&mut self, board_id: &String) -> (r: String)
        requires
            old(self).subjects.wf(),
        ensures
            final(self).subjects.wf(),
            r@ == board_id@,
            crate::hub::has_topic(final(self).subjects.topics@, board_id@),
            final(self).subjects.next_subscriber == old(self).subjects.next_subscriber,
            forall|k: Seq<char>, s: u64|
                is_subscribed(final(self).subjects.topics@, k, s) == is_subscribed(
                    old(self).subjects.topics@,
                    k,
                    s,
                ),
    {
        self.subjects.get_or_create(board_id);
        board_id.clone()
    }

    /// The event as deliveries: no existence re-check for active members.
    pub fn emit_active_member_event(&self, board_id: &str, event: ActiveMemberEvent) -> (em:
        Emission)
        requires
            self.subjects.wf(),
        ensures
            emission_delivers(
                em,
                self.subjects,
                board_id@,
                active_member_event_name(event.event_type),
                event.body,
            ),
    {
        let subscribers = self.subjects.publish(board_id);
        let message = ServerMessage::event(event.event_type.to_string(), event.body);
        Emission { subscribers, message }
    }
}

} // verus!
