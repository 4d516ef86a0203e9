//! The element request handlers: create, remove, lock, unlock, the batch
//! lock/unlock/move operations, and content updates.
//!
//! Every successful mutating handler writes to the store first and only
//! then builds its emissions, one per affected element, carrying the new
//! state; a rejected request mutates nothing and emits nothing.

use vstd::prelude::*;
use crate::context::ElementContext;
use crate::context::ElementEvent;
use crate::context::ElementEventType;
use crate::context::element_event_name;
use crate::fields::field_is_str;
use crate::fields::get_str;
use crate::fields::spec_field;
use crate::hub::Emission;
use crate::hub::EventHub;
use crate::hub::is_subscribed;
use crate::json::BodyField;
use crate::json::FieldValue;
use crate::json::JsonVal;
use crate::json::members_view;
use crate::json::render_body_into;
use crate::json::smem;
use crate::json::spec_render_body;
use crate::lock::LockSignal;
use crate::lock::UnlockSignal;
use crate::lock::classify_lock;
use crate::lock::classify_unlock;
use crate::lock::lock_signal_of;
use crate::lock::lock_state;
use crate::lock::unlock_signal_of;
use crate::lock::with_lock;
use crate::records::Element;
use crate::server_msg::ServerMessage;
use crate::server_msg::ErrorResponseBody;
use crate::server_msg::spec_err_body;
use crate::store::Store;
use crate::store::has_element;

verus! {

/// The index of the element with this id, if stored.
pub open spec fn spec_find_element(s: Seq<Element>, id: Seq<char>) -> Option<int> {
    if has_element(s, id) {
        Some(choose|i: int| 0 <= i < s.len() && s[i]._id@ == id)
    } else {
        None
    }
}

/// The emission reaches exactly the subscribers of the key and carries
/// this event name and body text.
pub open spec fn emission_reaches(
    em: Emission,
    hub: EventHub,
    key: Seq<char>,
    name: Seq<char>,
    body: Seq<char>,
) -> bool {
    &&& forall|t: u64| em.subscribers@.contains(t) == is_subscribed(hub.topics@, key, t)
    &&& forall|a: int, b: int| 0 <= a < b < em.subscribers@.len() ==> em.subscribers@[a]
        != em.subscribers@[b]
    &&& em.message.message_type@ == name
    &&& em.message.status@ == "OK"@
    &&& em.message.body@ == body
}

/// A body carrying an element id and a user id.
pub open spec fn spec_id_user_body(id: Seq<char>, user: Seq<char>) -> Seq<char> {
    spec_render_body(seq![smem("_id"@, JsonVal::Str(id)), smem("userId"@, JsonVal::Str(user))])
}

/// A body carrying an element id alone.
pub open spec fn spec_sole_id_body(id: Seq<char>) -> Seq<char> {
    spec_render_body(seq![smem("_id"@, JsonVal::Str(id))])
}

/// The event payload announcing a lock.
pub struct ElementLockedEventPayload {
    pub _id: String,
    pub user_id: String,
}

impl ElementLockedEventPayload {
    /// Encodes this payload as its wire object.
    pub fn encode(&self) -> (r: String)
        ensures
            r@ == spec_id_user_body(self._id@, self.user_id@),
    {
        let mut fields: Vec<BodyField> = Vec::new();
        fields.push(BodyField { key: "_id".to_owned(), value: FieldValue::Str(self._id.clone()) });
        fields.push(
            BodyField { key: "userId".to_owned(), value: FieldValue::Str(self.user_id.clone()) },
        );
        let mut out = String::new();
        render_body_into(&mut out, &fields);
        proof {
            assert(members_view(fields@) =~= seq![
                smem("_id"@, JsonVal::Str(self._id@)),
                smem("userId"@, JsonVal::Str(self.user_id@)),
            ]);
            assert(out@ =~= spec_id_user_body(self._id@, self.user_id@));
        }
        out
    }
}

/// The response payload confirming a lock.
pub struct ElementLockedMessage {
    pub _id: String,
    pub user_id: String,
}

impl ElementLockedMessage {
    /// Encodes this payload as its wire object.
    pub fn encode(&self) -> (r: String)
        ensures
            r@ == spec_id_user_body(self._id@, self.user_id@),
    {
        let payload = ElementLockedEventPayload {
            _id: self._id.clone(),
            user_id: self.user_id.clone(),
        };
        payload.encode()
    }
}

/// The event payload announcing an unlock.
pub struct ElementUnlockedEventPayload {
    pub _id: String,
}

impl ElementUnlockedEventPayload {
    /// Encodes this payload as its wire object.
    pub fn encode(&self) -> (r: String)
        ensures
            r@ == spec_sole_id_body(self._id@),
    {
        let mut fields: Vec<BodyField> = Vec::new();
        fields.push(BodyField { key: "_id".to_owned(), value: FieldValue::Str(self._id.clone()) });
        let mut out = String::new();
        render_body_into(&mut out, &fields);
        proof {
            assert(members_view(fields@) =~= seq![smem("_id"@, JsonVal::Str(self._id@))]);
            assert(out@ =~= spec_sole_id_body(self._id@));
        }
        out
    }
}

/// The response payload confirming an unlock.
pub struct ElementUnlockedMessage {
    pub _id: String,
}

impl ElementUnlockedMessage {
    /// Encodes this payload as its wire object.
    pub fn encode(&self) -> (r: String)
        ensures
            r@ == spec_sole_id_body(self._id@),
    {
        let payload = ElementUnlockedEventPayload { _id: self._id.clone() };
        payload.encode()
    }
}

/// A request to lock one element.
pub struct LockElementMessage {
    pub _id: String,
    pub user_id: String,
    pub board_id: String,
}

/// How a parsed lock element request relates to the decoded body
/// it came from.
pub open spec fn lock_element_msg_matches(m: LockElementMessage, ms: Seq<crate::json::JsonMember>) -> bool {
    &&& spec_field(ms, "_id"@) == Some(JsonVal::Str(m._id@))
    &&& spec_field(ms, "userId"@) == Some(JsonVal::Str(m.user_id@))
    &&& spec_field(ms, "boardId"@) == Some(
        JsonVal::Str(m.board_id@),
    )
}

/// The shapes a lock element body must have.
pub open spec fn lock_element_fields_ok(ms: Seq<crate::json::JsonMember>) -> bool {
    &&& field_is_str(ms, "_id"@)
    &&& field_is_str(ms, "userId"@)
    &&& field_is_str(ms, "boardId"@)
}

/// Everything handling one lock element request guarantees, for
/// a store `pre` before and `post` after the call: the exact store
/// effect, response envelope and emissions.
pub open spec fn lock_element_post(
    m: LockElementMessage,
    pre: Store,
    post: Store,
    ctx: ElementContext,
    r0: Result<ServerMessage, ServerMessage>,
    ems: Seq<Emission>,
) -> bool {
    &&& (post.wf())
    &&& (post.boards == pre.boards)
    &&& (post.clients == pre.clients)
    &&& (post.users == pre.users)
    &&& (post.active_members == pre.active_members)
    &&& (match spec_find_element(pre.elements@, m._id@) {
            None => {
                &&& r0 is Err
                &&& post.elements == pre.elements
                &&& ems.len() == 0
                &&& r0->Err_0.message_type@ == "response_"@ + "lockelement"@
                &&& r0->Err_0.status@ == "ERROR"@
                &&& r0->Err_0.body@ == spec_err_body("Element not found"@, m._id@)
            },
            Some(j) => match lock_signal_of(lock_state(pre.elements@[j]), m.user_id@) {
                LockSignal::Acquired => {
                    &&& post.elements@ == pre.elements@.update(
                        j,
                        with_lock(pre.elements@[j], Some(m.user_id)),
                    )
                    &&& r0 is Ok
                    &&& r0->Ok_0.message_type@ == "response_"@ + "lockelement"@
                    &&& r0->Ok_0.status@ == "OK"@
                    &&& r0->Ok_0.body@ == spec_id_user_body(m._id@, m.user_id@)
                    &&& ems.len() == 1
                    &&& emission_reaches(
                        ems[0],
                        ctx.subjects,
                        m.board_id@,
                        element_event_name(ElementEventType::Locked),
                        spec_id_user_body(m._id@, m.user_id@),
                    )
                },
                LockSignal::AlreadyOwn => {
                    &&& post.elements == pre.elements
                    &&& ems.len() == 0
                    &&& r0 is Ok
                    &&& r0->Ok_0.message_type@ == "response_"@ + "lockelement"@
                    &&& r0->Ok_0.status@ == "OK"@
                    &&& r0->Ok_0.body@ == spec_err_body(
                        "Element already locked by yourself"@,
                        m._id@,
                    )
                },
                LockSignal::HeldByOther => {
                    &&& post.elements == pre.elements
                    &&& ems.len() == 0
                    &&& r0 is Err
                    &&& r0->Err_0.message_type@ == "response_"@ + "lockelement"@
                    &&& r0->Err_0.status@ == "ERROR"@
                    &&& r0->Err_0.body@ == spec_err_body(
                        "Element already locked by someone else"@,
                        m._id@,
                    )
                },
            },
        })
}

impl LockElementMessage {
    /// Reads the request fields out of a decoded body.
    pub fn parse(body: &Vec<BodyField>) -> (r: Option<Self>)
        ensures
            match r {
                Some(m) => lock_element_msg_matches(m, members_view(body@)),
                None => !lock_element_fields_ok(members_view(body@)),
            },
    {
        let _id = match get_str(body, "_id") {
            Some(v) => v,
            None => {
                return None;
            },
        };
        let user_id = match get_str(body, "userId") {
            Some(v) => v,
            None => {
                return None;
            },
        };
        let board_id = match get_str(body, "boardId") {
            Some(v) => v,
            None => {
                return None;
            },
        };
        Some(LockElementMessage { _id, user_id, board_id })
    }

    /// Locks the element for the requesting user. An unlocked element
    /// becomes locked, is announced to the board's subscribers and
    /// confirmed; a re-lock by the holder succeeds distinctly and changes
    /// nothing; a lock held by another user, or an unknown element, is
    /// rejected and changes nothing.
    pub fn handle(&self, store: &mut Store, context: &ElementContext) -> (r: (
        Result<ServerMessage, ServerMessage>,
        Vec<Emission>,
    ))
        requires
            old(store).wf(),
            context.subjects.wf(),
        ensures
            lock_element_post(*self, *old(store), *final(store), *context, r.0, r.1@),
    {
        let j = match store.find_element(self._id.as_str()) {
            Some(j) => j,
            None => {
                proof {
                    assert(spec_find_element(store.elements@, self._id@) is None);
                }
                let err = ErrorResponseBody {
                    message: "Element not found".to_owned(),
                    body: self._id.clone(),
                };
                return (
                    Err(ServerMessage::error_response("lockelement".to_owned(), err.encode())),
                    Vec::new(),
                );
            },
        };
        proof {
            let ghost jj = spec_find_element(store.elements@, self._id@)->Some_0;
            assert(store.elements@[jj]._id@ == self._id@);
            assert(jj == j) by {
                if jj != j {
                    assert(store.elements@[jj]._id@ != store.elements@[j as int]._id@);
                }
            }
        }
        match classify_lock(&store.elements[j], &self.user_id) {
            LockSignal::Acquired => {
                let elem = &store.elements[j];
                let mut locked = elem.duplicate();
                locked.locked_by = Some(self.user_id.clone());
                store.replace_element_at(j, locked);
                let event_payload = ElementLockedEventPayload {
                    _id: self._id.clone(),
                    user_id: self.user_id.clone(),
                };
                let emission = context.emit_element_event(
                    self.board_id.as_str(),
                    ElementEvent {
                        event_type: ElementEventType::Locked,
                        body: event_payload.encode(),
                    },
                );
                let mut emissions: Vec<Emission> = Vec::new();
                emissions.push(emission);
                let response_payload = ElementLockedMessage {
                    _id: self._id.clone(),
                    user_id: self.user_id.clone(),
                };
                (
                    Ok(
                        ServerMessage::ok_response(
                            "lockelement".to_owned(),
                            response_payload.encode(),
                        ),
                    ),
                    emissions,
                )
            },
            LockSignal::AlreadyOwn => {
                let err = ErrorResponseBody {
                    message: "Element already locked by yourself".to_owned(),
                    body: self._id.clone(),
                };
                (
                    Ok(ServerMessage::ok_response("lockelement".to_owned(), err.encode())),
                    Vec::new(),
                )
            },
            LockSignal::HeldByOther => {
                let err = ErrorResponseBody {
                    message: "Element already locked by someone else".to_owned(),
                    body: self._id.clone(),
                };
                (
                    Err(ServerMessage::error_response("lockelement".to_owned(), err.encode())),
                    Vec::new(),
                )
            },
        }
    }
}

/// The encoded list of the requested element ids.
pub open spec fn spec_ids_text(ids: Seq<Seq<char>>) -> Seq<char> {
    crate::json::spec_render_value(JsonVal::StrList(ids))
}

/// The body confirming a batch lock: the ids and the holder.
pub open spec fn spec_ids_user_body(ids: Seq<Seq<char>>, user: Seq<char>) -> Seq<char> {
    spec_render_body(
        seq![smem("ids"@, JsonVal::StrList(ids)), smem("userId"@, JsonVal::Str(user))],
    )
}

/// The body confirming a batch unlock or move: the ids alone.
pub open spec fn spec_ids_body(ids: Seq<Seq<char>>) -> Seq<char> {
    spec_render_body(seq![smem("ids"@, JsonVal::StrList(ids))])
}

/// The body announcing a move: the element, the mover and the offsets.
pub open spec fn spec_moved_body(id: Seq<char>, user: Seq<char>, dx: int, dy: int) -> Seq<char> {
    spec_render_body(
        seq![
            smem("_id"@, JsonVal::Str(id)),
            smem("userId"@, JsonVal::Str(user)),
            smem("xOffset"@, JsonVal::Int(dx)),
            smem("yOffset"@, JsonVal::Int(dy)),
        ],
    )
}

/// Encodes the requested ids as a list, for echoing in error bodies.
pub fn encode_id_list(ids: &Vec<String>) -> (r: String)
    ensures
        r@ == spec_ids_text(crate::json::strs_view(ids@)),
{
    let copy = crate::util::clone_string_vec(ids);
    let value = FieldValue::StrList(copy);
    let mut out = String::new();
    crate::json::render_value_into(&mut out, &value);
    out
}

/// The event payload announcing a move.
pub struct ElementMovedEventPayload {
    pub _id: String,
    pub user_id: String,
    pub x_offset: i64,
    pub y_offset: i64,
}

impl ElementMovedEventPayload {
    /// Encodes this payload as its wire object.
    pub fn encode(&self) -> (r: String)
        ensures
            r@ == spec_moved_body(self._id@, self.user_id@, self.x_offset as int,
                self.y_offset as int),
    {
        let mut fields: Vec<BodyField> = Vec::new();
        fields.push(BodyField { key: "_id".to_owned(), value: FieldValue::Str(self._id.clone()) });
        fields.push(
            BodyField { key: "userId".to_owned(), value: FieldValue::Str(self.user_id.clone()) },
        );
        fields.push(BodyField { key: "xOffset".to_owned(), value: FieldValue::Int(self.x_offset) });
        fields.push(BodyField { key: "yOffset".to_owned(), value: FieldValue::Int(self.y_offset) });
        let mut out = String::new();
        render_body_into(&mut out, &fields);
        proof {
            assert(members_view(fields@) =~= seq![
                smem("_id"@, JsonVal::Str(self._id@)),
                smem("userId"@, JsonVal::Str(self.user_id@)),
                smem("xOffset"@, JsonVal::Int(self.x_offset as int)),
                smem("yOffset"@, JsonVal::Int(self.y_offset as int)),
            ]);
            assert(out@ =~= spec_moved_body(self._id@, self.user_id@, self.x_offset as int,
                self.y_offset as int));
        }
        out
    }
}

/// The response payload confirming a batch lock.
pub struct ElementsLockedMessage {
    pub ids: Vec<String>,
    pub user_id: String,
}

impl ElementsLockedMessage {
    /// Encodes this payload as its wire object.
    pub fn encode(&self) -> (r: String)
        ensures
            r@ == spec_ids_user_body(crate::json::strs_view(self.ids@), self.user_id@),
    {
        let mut fields: Vec<BodyField> = Vec::new();
        fields.push(
            BodyField {
                key: "ids".to_owned(),
                value: FieldValue::StrList(crate::util::clone_string_vec(&self.ids)),
            },
        );
        fields.push(
            BodyField { key: "userId".to_owned(), value: FieldValue::Str(self.user_id.clone()) },
        );
        let mut out = String::new();
        render_body_into(&mut out, &fields);
        proof {
            assert(members_view(fields@) =~= seq![
                smem("ids"@, JsonVal::StrList(crate::json::strs_view(self.ids@))),
                smem("userId"@, JsonVal::Str(self.user_id@)),
            ]);
            assert(out@ =~= spec_ids_user_body(crate::json::strs_view(self.ids@), self.user_id@));
        }
        out
    }
}

/// The response payload confirming a batch unlock.
pub struct ElementsUnlockedMessage {
    pub ids: Vec<String>,
}

impl ElementsUnlockedMessage {
    /// Encodes this payload as its wire object.
    pub fn encode(&self) -> (r: String)
        ensures
            r@ == spec_ids_body(crate::json::strs_view(self.ids@)),
    {
        let mut fields: Vec<BodyField> = Vec::new();
        fields.push(
            BodyField {
                key: "ids".to_owned(),
                value: FieldValue::StrList(crate::util::clone_string_vec(&self.ids)),
            },
        );
        let mut out = String::new();
        render_body_into(&mut out, &fields);
        proof {
            assert(members_view(fields@) =~= seq![
                smem("ids"@, JsonVal::StrList(crate::json::strs_view(self.ids@))),
            ]);
            assert(out@ =~= spec_ids_body(crate::json::strs_view(self.ids@)));
        }
        out
    }
}

/// The response payload confirming a batch move.
pub struct ElementsMovedMessage {
    pub ids: Vec<String>,
}

impl ElementsMovedMessage {
    /// Encodes this payload as its wire object.
    pub fn encode(&self) -> (r: String)
        ensures
            r@ == spec_ids_body(crate::json::strs_view(self.ids@)),
    {
        let inner = ElementsUnlockedMessage { ids: crate::util::clone_string_vec(&self.ids) };
        let r = inner.encode();
        proof {
            assert(crate::json::strs_view(inner.ids@) =~= crate::json::strs_view(self.ids@));
        }
        r
    }
}

/// A request to lock a batch of elements, all or none.
pub struct LockElementsMessage {
    pub ids: Vec<String>,
    pub user_id: String,
    pub board_id: String,
}

/// How a parsed lock elements request relates to the decoded body
/// it came from.
pub open spec fn lock_elements_msg_matches(m: LockElementsMessage, ms: Seq<crate::json::JsonMember>) -> bool {
    &&& spec_field(ms, "ids"@) == Some(
        JsonVal::StrList(crate::json::strs_view(m.ids@)),
    )
    &&& spec_field(ms, "userId"@) == Some(JsonVal::Str(m.user_id@))
    &&& spec_field(ms, "boardId"@) == Some(
        JsonVal::Str(m.board_id@),
    )
}

/// The shapes a lock elements body must have.
pub open spec fn lock_elements_fields_ok(ms: Seq<crate::json::JsonMember>) -> bool {
    &&& crate::fields::field_is_str_list(ms, "ids"@)
    &&& field_is_str(ms, "userId"@)
    &&& field_is_str(ms, "boardId"@)
}

/// Everything handling one lock elements request guarantees, for
/// a store `pre` before and `post` after the call: the exact store
/// effect, response envelope and emissions.
pub open spec fn lock_elements_post(
    m: LockElementsMessage,
    pre: Store,
    post: Store,
    ctx: ElementContext,
    r0: Result<ServerMessage, ServerMessage>,
    ems: Seq<Emission>,
) -> bool {
    &&& (post.wf())
    &&& (post.boards == pre.boards)
    &&& (post.clients == pre.clients)
    &&& (post.users == pre.users)
    &&& (post.active_members == pre.active_members)
    &&& (({
            let found = pre.elements@.filter(
                |e: Element| crate::util::seq_contains_str(m.ids@, e._id@),
            );
            if found.len() == 0 {
                &&& r0 is Err
                &&& post.elements == pre.elements
                &&& ems.len() == 0
                &&& r0->Err_0.body@ == spec_err_body(
                    "No Elements found"@,
                    spec_ids_text(crate::json::strs_view(m.ids@)),
                )
            } else if crate::lock::batch_conflict(found, m.user_id@) {
                &&& r0 is Err
                &&& post.elements == pre.elements
                &&& ems.len() == 0
                &&& r0->Err_0.body@ == spec_err_body(
                    "Some Element is locked by another user"@,
                    spec_ids_text(crate::json::strs_view(m.ids@)),
                )
            } else {
                &&& r0 is Ok
                &&& post.elements@ == crate::store::batch_locked(
                    pre.elements@,
                    m.ids@,
                    m.user_id,
                )
                &&& r0->Ok_0.message_type@ == "response_"@ + "lockelements"@
                &&& r0->Ok_0.status@ == "OK"@
                &&& r0->Ok_0.body@ == spec_ids_user_body(
                    crate::json::strs_view(m.ids@),
                    m.user_id@,
                )
                &&& ems.len() == m.ids@.len()
                &&& forall|k: int|
                    0 <= k < m.ids@.len() ==> emission_reaches(
                        #[trigger] ems[k],
                        ctx.subjects,
                        m.board_id@,
                        element_event_name(ElementEventType::Locked),
                        spec_id_user_body(m.ids@[k]@, m.user_id@),
                    )
            }
        }))
}

impl LockElementsMessage {
    /// Reads the request fields out of a decoded body.
    pub fn parse(body: &Vec<BodyField>) -> (r: Option<Self>)
        ensures
            match r {
                Some(m) => lock_elements_msg_matches(m, members_view(body@)),
                None => !lock_elements_fields_ok(members_view(body@)),
            },
    {
        let ids = match crate::fields::get_str_list(body, "ids") {
            Some(v) => v,
            None => {
                return None;
            },
        };
        let user_id = match get_str(body, "userId") {
            Some(v) => v,
            None => {
                return None;
            },
        };
        let board_id = match get_str(body, "boardId") {
            Some(v) => v,
            None => {
                return None;
            },
        };
        Some(LockElementsMessage { ids, user_id, board_id })
    }

    /// Locks the whole batch for the requesting user, or nothing: when any
    /// listed element is locked by a different user, or none is stored,
    /// the store is left untouched and the request is rejected. On success
    /// every listed stored element is locked and one lock event per
    /// requested id goes to the board's subscribers.
    pub fn handle(&self, store: &mut Store, context: &ElementContext) -> (r: (
        Result<ServerMessage, ServerMessage>,
        Vec<Emission>,
    ))
        requires
            old(store).wf(),
            context.subjects.wf(),
        ensures
            lock_elements_post(*self, *old(store), *final(store), *context, r.0, r.1@),
    {
        let found = store.elements_with_ids(&self.ids);
        if found.len() == 0 {
            let err = ErrorResponseBody {
                message: "No Elements found".to_owned(),
                body: encode_id_list(&self.ids),
            };
            return (
                Err(ServerMessage::error_response("lockelements".to_owned(), err.encode())),
                Vec::new(),
            );
        }
        if crate::lock::find_batch_conflict(&found, &self.user_id).is_some() {
            let err = ErrorResponseBody {
                message: "Some Element is locked by another user".to_owned(),
                body: encode_id_list(&self.ids),
            };
            return (
                Err(ServerMessage::error_response("lockelements".to_owned(), err.encode())),
                Vec::new(),
            );
        }
        store.lock_elements_by_ids(&self.ids, &self.user_id);
        let mut emissions: Vec<Emission> = Vec::new();
        let mut k: usize = 0;
        while k < self.ids.len()
            invariant
                k <= self.ids@.len(),
                emissions@.len() == k,
                context.subjects.wf(),
                forall|x: int|
                    0 <= x < k ==> emission_reaches(
                        #[trigger] emissions@[x],
                        context.subjects,
                        self.board_id@,
                        element_event_name(ElementEventType::Locked),
                        spec_id_user_body(self.ids@[x]@, self.user_id@),
                    ),
            decreases self.ids@.len() - k,
        {
            let event_payload = ElementLockedEventPayload {
                _id: self.ids[k].clone(),
                user_id: self.user_id.clone(),
            };
            let emission = context.emit_element_event(
                self.board_id.as_str(),
                ElementEvent { event_type: ElementEventType::Locked, body: event_payload.encode() },
            );
            emissions.push(emission);
            k = k + 1;
        }
        let response_payload = ElementsLockedMessage {
            ids: crate::util::clone_string_vec(&self.ids),
            user_id: self.user_id.clone(),
        };
        let response = ServerMessage::ok_response("lockelements".to_owned(), response_payload.encode());
        proof {
            assert(crate::json::strs_view(response_payload.ids@) =~= crate::json::strs_view(
                self.ids@,
            ));
        }
        (Ok(response), emissions)
    }
}

/// A request to unlock a batch of elements, all or none.
pub struct UnlockElementsMessage {
    pub ids: Vec<String>,
    pub user_id: String,
    pub board_id: String,
}

/// How a parsed unlock elements request relates to the decoded body
/// it came from.
pub open spec fn unlock_elements_msg_matches(m: UnlockElementsMessage, ms: Seq<crate::json::JsonMember>) -> bool {
    &&& spec_field(ms, "ids"@) == Some(
        JsonVal::StrList(crate::json::strs_view(m.ids@)),
    )
    &&& spec_field(ms, "userId"@) == Some(JsonVal::Str(m.user_id@))
    &&& spec_field(ms, "boardId"@) == Some(
        JsonVal::Str(m.board_id@),
    )
}

/// The shapes a unlock elements body must have.
pub open spec fn unlock_elements_fields_ok(ms: Seq<crate::json::JsonMember>) -> bool {
    &&& crate::fields::field_is_str_list(ms, "ids"@)
    &&& field_is_str(ms, "userId"@)
    &&& field_is_str(ms, "boardId"@)
}

/// Everything handling one unlock elements request guarantees, for
/// a store `pre` before and `post` after the call: the exact store
/// effect, response envelope and emissions.
pub open spec fn unlock_elements_post(
    m: UnlockElementsMessage,
    pre: Store,
    post: Store,
    ctx: ElementContext,
    r0: Result<ServerMessage, ServerMessage>,
    ems: Seq<Emission>,
) -> bool {
    &&& (post.wf())
    &&& (post.boards == pre.boards)
    &&& (post.clients == pre.clients)
    &&& (post.users == pre.users)
    &&& (post.active_members == pre.active_members)
    &&& (({
            let found = pre.elements@.filter(
                |e: Element| crate::util::seq_contains_str(m.ids@, e._id@),
            );
            if found.len() == 0 {
                &&& r0 is Err
                &&& post.elements == pre.elements
                &&& ems.len() == 0
                &&& r0->Err_0.body@ == spec_err_body(
                    "No Elements found"@,
                    spec_ids_text(crate::json::strs_view(m.ids@)),
                )
            } else if crate::lock::batch_conflict(found, m.user_id@) {
                &&& r0 is Err
                &&& post.elements == pre.elements
                &&& ems.len() == 0
                &&& r0->Err_0.body@ == spec_err_body(
                    "Some element is locked by another user"@,
                    spec_ids_text(crate::json::strs_view(m.ids@)),
                )
            } else {
                &&& r0 is Ok
                &&& post.elements@ == crate::store::batch_unlocked(
                    pre.elements@,
                    m.ids@,
                )
                &&& r0->Ok_0.message_type@ == "response_"@ + "unlockelements"@
                &&& r0->Ok_0.status@ == "OK"@
                &&& r0->Ok_0.body@ == spec_ids_body(crate::json::strs_view(m.ids@))
                &&& ems.len() == m.ids@.len()
                &&& forall|k: int|
                    0 <= k < m.ids@.len() ==> emission_reaches(
                        #[trigger] ems[k],
                        ctx.subjects,
                        m.board_id@,
                        element_event_name(ElementEventType::Unlocked),
                        spec_sole_id_body(m.ids@[k]@),
                    )
            }
        }))
}

impl UnlockElementsMessage {
    /// Reads the request fields out of a decoded body.
    pub fn parse(body: &Vec<BodyField>) -> (r: Option<Self>)
        ensures
            match r {
                Some(m) => unlock_elements_msg_matches(m, members_view(body@)),
                None => !unlock_elements_fields_ok(members_view(body@)),
            },
    {
        let ids = match crate::fields::get_str_list(body, "ids") {
            Some(v) => v,
            None => {
                return None;
            },
        };
        let user_id = match get_str(body, "userId") {
            Some(v) => v,
            None => {
                return None;
            },
        };
        let board_id = match get_str(body, "boardId") {
            Some(v) => v,
            None => {
                return None;
            },
        };
        Some(UnlockElementsMessage { ids, user_id, board_id })
    }

    /// Unlocks the whole batch, or nothing: when any listed element is
    /// locked by a different user, or none is stored, the store is left
    /// untouched and the request is rejected. On success every listed
    /// stored element is unlocked and one unlock event per requested id
    /// goes to the board's subscribers.
    pub fn handle(&self, store: &mut Store, context: &ElementContext) -> (r: (
        Result<ServerMessage, ServerMessage>,
        Vec<Emission>,
    ))
        requires
            old(store).wf(),
            context.subjects.wf(),
        ensures
            unlock_elements_post(*self, *old(store), *final(store), *context, r.0, r.1@),
    {
        let found = store.elements_with_ids(&self.ids);
        if found.len() == 0 {
            let err = ErrorResponseBody {
                message: "No Elements found".to_owned(),
                body: encode_id_list(&self.ids),
            };
            return (
                Err(ServerMessage::error_response("unlockelements".to_owned(), err.encode())),
                Vec::new(),
            );
        }
        if crate::lock::find_batch_conflict(&found, &self.user_id).is_some() {
            let err = ErrorResponseBody {
                message: "Some element is locked by another user".to_owned(),
                body: encode_id_list(&self.ids),
            };
            return (
                Err(ServerMessage::error_response("unlockelements".to_owned(), err.encode())),
                Vec::new(),
            );
        }
        store.unlock_elements_by_ids(&self.ids);
        let mut emissions: Vec<Emission> = Vec::new();
        let mut k: usize = 0;
        while k < self.ids.len()
            invariant
                k <= self.ids@.len(),
                emissions@.len() == k,
                context.subjects.wf(),
                forall|x: int|
                    0 <= x < k ==> emission_reaches(
                        #[trigger] emissions@[x],
                        context.subjects,
                        self.board_id@,
                        element_event_name(ElementEventType::Unlocked),
                        spec_sole_id_body(self.ids@[x]@),
                    ),
            decreases self.ids@.len() - k,
        {
            let event_payload = ElementUnlockedEventPayload { _id: self.ids[k].clone() };
            let emission = context.emit_element_event(
                self.board_id.as_str(),
                ElementEvent {
                    event_type: ElementEventType::Unlocked,
                    body: event_payload.encode(),
                },
            );
            emissions.push(emission);
            k = k + 1;
        }
        let response_payload = ElementsUnlockedMessage {
            ids: crate::util::clone_string_vec(&self.ids),
        };
        let response = ServerMessage::ok_response(
            "unlockelements".to_owned(),
            response_payload.encode(),
        );
        proof {
            assert(crate::json::strs_view(response_payload.ids@) =~= crate::json::strs_view(
                self.ids@,
            ));
        }
        (Ok(response), emissions)
    }
}

/// A request to move a batch of elements by one offset, all or none.
pub struct MoveElementsMessage {
    pub ids: Vec<String>,
    pub user_id: String,
    pub board_id: String,
    pub x_offset: i64,
    pub y_offset: i64,
}

/// How a parsed move elements request relates to the decoded body
/// it came from.
pub open spec fn move_elements_msg_matches(m: MoveElementsMessage, ms: Seq<crate::json::JsonMember>) -> bool {
    &&& spec_field(ms, "ids"@) == Some(
        JsonVal::StrList(crate::json::strs_view(m.ids@)),
    )
    &&& spec_field(ms, "userId"@) == Some(JsonVal::Str(m.user_id@))
    &&& spec_field(ms, "boardId"@) == Some(
        JsonVal::Str(m.board_id@),
    )
    &&& spec_field(ms, "xOffset"@) == Some(
        JsonVal::Int(m.x_offset as int),
    )
    &&& spec_field(ms, "yOffset"@) == Some(
        JsonVal::Int(m.y_offset as int),
    )
}

/// The shapes a move elements body must have.
pub open spec fn move_elements_fields_ok(ms: Seq<crate::json::JsonMember>) -> bool {
    &&& crate::fields::field_is_str_list(ms, "ids"@)
    &&& field_is_str(ms, "userId"@)
    &&& field_is_str(ms, "boardId"@)
    &&& crate::fields::field_is_int(ms, "xOffset"@)
    &&& crate::fields::field_is_int(ms, "yOffset"@)
}

/// Everything handling one move elements request guarantees, for
/// a store `pre` before and `post` after the call: the exact store
/// effect, response envelope and emissions.
pub open spec fn move_elements_post(
    m: MoveElementsMessage,
    pre: Store,
    post: Store,
    ctx: ElementContext,
    r0: Result<ServerMessage, ServerMessage>,
    ems: Seq<Emission>,
) -> bool {
    &&& (post.wf())
    &&& (post.boards == pre.boards)
    &&& (post.clients == pre.clients)
    &&& (post.users == pre.users)
    &&& (post.active_members == pre.active_members)
    &&& (({
            let found = pre.elements@.filter(
                |e: Element| crate::util::seq_contains_str(m.ids@, e._id@),
            );
            if found.len() == 0 {
                &&& r0 is Err
                &&& post.elements == pre.elements
                &&& ems.len() == 0
                &&& r0->Err_0.body@ == spec_err_body(
                    "No Elements found"@,
                    spec_ids_text(crate::json::strs_view(m.ids@)),
                )
            } else if crate::lock::batch_conflict(found, m.user_id@) {
                &&& r0 is Err
                &&& post.elements == pre.elements
                &&& ems.len() == 0
                &&& r0->Err_0.body@ == spec_err_body(
                    "Some Element is locked by someone else"@,
                    spec_ids_text(crate::json::strs_view(m.ids@)),
                )
            } else {
                &&& r0 is Ok
                &&& post.elements@ == crate::store::batch_moved(
                    pre.elements@,
                    m.ids@,
                    m.user_id,
                    m.x_offset as int,
                    m.y_offset as int,
                )
                &&& r0->Ok_0.message_type@ == "response_"@ + "moveelements"@
                &&& r0->Ok_0.status@ == "OK"@
                &&& r0->Ok_0.body@ == spec_ids_body(crate::json::strs_view(m.ids@))
                &&& ems.len() == m.ids@.len()
                &&& forall|k: int|
                    0 <= k < m.ids@.len() ==> emission_reaches(
                        #[trigger] ems[k],
                        ctx.subjects,
                        m.board_id@,
                        element_event_name(ElementEventType::Moved),
                        spec_moved_body(
                            m.ids@[k]@,
                            m.user_id@,
                            m.x_offset as int,
                            m.y_offset as int,
                        ),
                    )
            }
        }))
}

impl MoveElementsMessage {
    /// Reads the request fields out of a decoded body.
    pub fn parse(body: &Vec<BodyField>) -> (r: Option<Self>)
        ensures
            match r {
                Some(m) => move_elements_msg_matches(m, members_view(body@)),
                None => !move_elements_fields_ok(members_view(body@)),
            },
    {
        let ids = match crate::fields::get_str_list(body, "ids") {
            Some(v) => v,
            None => {
                return None;
            },
        };
        let user_id = match get_str(body, "userId") {
            Some(v) => v,
            None => {
                return None;
            },
        };
        let board_id = match get_str(body, "boardId") {
            Some(v) => v,
            None => {
                return None;
            },
        };
        let x_offset = match crate::fields::get_int(body, "xOffset") {
            Some(v) => v,
            None => {
                return None;
            },
        };
        let y_offset = match crate::fields::get_int(body, "yOffset") {
            Some(v) => v,
            None => {
                return None;
            },
        };
        Some(MoveElementsMessage { ids, user_id, board_id, x_offset, y_offset })
    }

    /// Moves the whole batch by the offset, or nothing: when any listed
    /// element is locked by a different user, or none is stored, the store
    /// is left untouched and the request is rejected. On success every
    /// listed stored element moves by the offset, becomes locked by the
    /// mover, and one move event per requested id goes to the board's
    /// subscribers.
    pub fn handle(&self, store: &mut Store, context: &ElementContext) -> (r: (
        Result<ServerMessage, ServerMessage>,
        Vec<Emission>,
    ))
        requires
            old(store).wf(),
            context.subjects.wf(),
        ensures
            move_elements_post(*self, *old(store), *final(store), *context, r.0, r.1@),
    {
        let found = store.elements_with_ids(&self.ids);
        if found.len() == 0 {
            let err = ErrorResponseBody {
                message: "No Elements found".to_owned(),
                body: encode_id_list(&self.ids),
            };
            return (
                Err(ServerMessage::error_response("moveelements".to_owned(), err.encode())),
                Vec::new(),
            );
        }
        if crate::lock::find_batch_conflict(&found, &self.user_id).is_some() {
            let err = ErrorResponseBody {
                message: "Some Element is locked by someone else".to_owned(),
                body: encode_id_list(&self.ids),
            };
            return (
                Err(ServerMessage::error_response("moveelements".to_owned(), err.encode())),
                Vec::new(),
            );
        }
        store.move_elements_by_ids(&self.ids, &self.user_id, self.x_offset, self.y_offset);
        let mut emissions: Vec<Emission> = Vec::new();
        let mut k: usize = 0;
        while k < self.ids.len()
            invariant
                k <= self.ids@.len(),
                emissions@.len() == k,
                context.subjects.wf(),
                forall|x: int|
                    0 <= x < k ==> emission_reaches(
                        #[trigger] emissions@[x],
                        context.subjects,
                        self.board_id@,
                        element_event_name(ElementEventType::Moved),
                        spec_moved_body(
                            self.ids@[x]@,
                            self.user_id@,
                            self.x_offset as int,
                            self.y_offset as int,
                        ),
                    ),
            decreases self.ids@.len() - k,
        {
            let event_payload = ElementMovedEventPayload {
                _id: self.ids[k].clone(),
                user_id: self.user_id.clone(),
                x_offset: self.x_offset,
                y_offset: self.y_offset,
            };
            let emission = context.emit_element_event(
                self.board_id.as_str(),
                ElementEvent { event_type: ElementEventType::Moved, body: event_payload.encode() },
            );
            emissions.push(emission);
            k = k + 1;
        }
        let response_payload = ElementsMovedMessage {
            ids: crate::util::clone_string_vec(&self.ids),
        };
        let response = ServerMessage::ok_response("moveelements".to_owned(), response_payload.encode());
        proof {
            assert(crate::json::strs_view(response_payload.ids@) =~= crate::json::strs_view(
                self.ids@,
            ));
        }
        (Ok(response), emissions)
    }
}

/// The event payload announcing a removal.
pub struct ElementRemovedEventPayload {
    pub _id: String,
    pub user_id: String,
}

impl ElementRemovedEventPayload {
    /// Encodes this payload as its wire object.
    pub fn encode(&self) -> (r: String)
        ensures
            r@ == spec_id_user_body(self._id@, self.user_id@),
    {
        let inner = ElementLockedEventPayload {
            _id: self._id.clone(),
            user_id: self.user_id.clone(),
        };
        inner.encode()
    }
}

/// The response payload confirming a removal.
pub struct ElementRemovedMessage {
    pub _id: String,
}

impl ElementRemovedMessage {
    /// Encodes this payload as its wire object.
    pub fn encode(&self) -> (r: String)
        ensures
            r@ == spec_sole_id_body(self._id@),
    {
        let inner = ElementUnlockedEventPayload { _id: self._id.clone() };
        inner.encode()
    }
}

/// A request to remove one element.
pub struct RemoveElementMessage {
    pub _id: String,
    pub board_id: String,
    pub user_id: String,
}

/// How a parsed remove element request relates to the decoded body
/// it came from.
pub open spec fn remove_element_msg_matches(m: RemoveElementMessage, ms: Seq<crate::json::JsonMember>) -> bool {
    &&& spec_field(ms, "_id"@) == Some(JsonVal::Str(m._id@))
    &&& spec_field(ms, "userId"@) == Some(JsonVal::Str(m.user_id@))
    &&& spec_field(ms, "boardId"@) == Some(
        JsonVal::Str(m.board_id@),
    )
}

/// The shapes a remove element body must have.
pub open spec fn remove_element_fields_ok(ms: Seq<crate::json::JsonMember>) -> bool {
    &&& field_is_str(ms, "_id"@)
    &&& field_is_str(ms, "userId"@)
    &&& field_is_str(ms, "boardId"@)
}

/// Everything handling one remove element request guarantees, for
/// a store `pre` before and `post` after the call: the exact store
/// effect, response envelope and emissions.
pub open spec fn remove_element_post(
    m: RemoveElementMessage,
    pre: Store,
    post: Store,
    ctx: ElementContext,
    r0: Result<ServerMessage, ServerMessage>,
    ems: Seq<Emission>,
) -> bool {
    &&& (post.wf())
    &&& (post.boards == pre.boards)
    &&& (post.clients == pre.clients)
    &&& (post.users == pre.users)
    &&& (post.active_members == pre.active_members)
    &&& (match spec_find_element(pre.elements@, m._id@) {
            None => {
                &&& r0 is Err
                &&& post.elements == pre.elements
                &&& ems.len() == 0
                &&& r0->Err_0.message_type@ == "response_"@ + "removeelement"@
                &&& r0->Err_0.status@ == "ERROR"@
                &&& r0->Err_0.body@ == spec_err_body("No Element found to delete"@, m._id@)
            },
            Some(j) => {
                &&& post.elements@ == pre.elements@.remove(j)
                &&& r0 is Ok
                &&& r0->Ok_0.message_type@ == "response_"@ + "removeelement"@
                &&& r0->Ok_0.status@ == "OK"@
                &&& r0->Ok_0.body@ == spec_sole_id_body(m._id@)
                &&& ems.len() == 1
                &&& emission_reaches(
                    ems[0],
                    ctx.subjects,
                    m.board_id@,
                    element_event_name(ElementEventType::Removed),
                    spec_id_user_body(m._id@, m.user_id@),
                )
            },
        })
}

impl RemoveElementMessage {
    /// Reads the request fields out of a decoded body.
    pub fn parse(body: &Vec<BodyField>) -> (r: Option<Self>)
        ensures
            match r {
                Some(m) => remove_element_msg_matches(m, members_view(body@)),
                None => !remove_element_fields_ok(members_view(body@)),
            },
    {
        let _id = match get_str(body, "_id") {
            Some(v) => v,
            None => {
                return None;
            },
        };
        let user_id = match get_str(body, "userId") {
            Some(v) => v,
            None => {
                return None;
            },
        };
        let board_id = match get_str(body, "boardId") {
            Some(v) => v,
            None => {
                return None;
            },
        };
        Some(RemoveElementMessage { _id, board_id, user_id })
    }

    /// Deletes the element. A stored element is removed, announced to the
    /// board's subscribers and confirmed; an unknown element is rejected
    /// and changes nothing.
    pub fn handle(&self, store: &mut Store, context: &ElementContext) -> (r: (
        Result<ServerMessage, ServerMessage>,
        Vec<Emission>,
    ))
        requires
            old(store).wf(),
            context.subjects.wf(),
        ensures
            remove_element_post(*self, *old(store), *final(store), *context, r.0, r.1@),
    {
        let j = match store.find_element(self._id.as_str()) {
            Some(j) => j,
            None => {
                proof {
                    assert(spec_find_element(store.elements@, self._id@) is None);
                }
                let err = ErrorResponseBody {
                    message: "No Element found to delete".to_owned(),
                    body: self._id.clone(),
                };
                return (
                    Err(ServerMessage::error_response("removeelement".to_owned(), err.encode())),
                    Vec::new(),
                );
            },
        };
        proof {
            let ghost jj = spec_find_element(store.elements@, self._id@)->Some_0;
            assert(store.elements@[jj]._id@ == self._id@);
            assert(jj == j) by {
                if jj != j {
                    assert(store.elements@[jj]._id@ != store.elements@[j as int]._id@);
                }
            }
        }
        store.remove_element_at(j);
        let event_payload = ElementRemovedEventPayload {
            _id: self._id.clone(),
            user_id: self.user_id.clone(),
        };
        let emission = context.emit_element_event(
            self.board_id.as_str(),
            ElementEvent { event_type: ElementEventType::Removed, body: event_payload.encode() },
        );
        let mut emissions: Vec<Emission> = Vec::new();
        emissions.push(emission);
        let response_payload = ElementRemovedMessage { _id: self._id.clone() };
        (
            Ok(ServerMessage::ok_response("removeelement".to_owned(), response_payload.encode())),
            emissions,
        )
    }
}

/// A full element body: every stored field plus the acting user.
pub open spec fn spec_element_body(
    id: Seq<char>,
    user: Seq<char>,
    selected: bool,
    locked_by: Option<String>,
    x: int,
    y: int,
    rotation: int,
    scale_x: int,
    scale_y: int,
    z_index: int,
    created_at: Seq<char>,
    text: Seq<char>,
    element_type: Seq<char>,
    board_id: Seq<char>,
    color: Seq<char>,
) -> Seq<char> {
    spec_render_body(
        seq![
            smem("_id"@, JsonVal::Str(id)),
            smem("userId"@, JsonVal::Str(user)),
            smem("selected"@, JsonVal::Bool(selected)),
            smem("lockedBy"@, crate::json::opt_str_val(locked_by)),
            smem("x"@, JsonVal::Int(x)),
            smem("y"@, JsonVal::Int(y)),
            smem("rotation"@, JsonVal::Int(rotation)),
            smem("scaleX"@, JsonVal::Int(scale_x)),
            smem("scaleY"@, JsonVal::Int(scale_y)),
            smem("zIndex"@, JsonVal::Int(z_index)),
            smem("createdAt"@, JsonVal::Str(created_at)),
            smem("text"@, JsonVal::Str(text)),
            smem("elementType"@, JsonVal::Str(element_type)),
            smem("boardId"@, JsonVal::Str(board_id)),
            smem("color"@, JsonVal::Str(color)),
        ],
    )
}

/// The event payload announcing a creation: the full new element.
pub struct ElementCreatedEventPayload {
    pub _id: String,
    pub user_id: String,
    pub selected: bool,
    pub locked_by: Option<String>,
    pub x: i64,
    pub y: i64,
    pub rotation: i64,
    pub scale_x: i64,
    pub scale_y: i64,
    pub z_index: i32,
    pub created_at: String,
    pub text: String,
    pub element_type: String,
    pub board_id: String,
    pub color: String,
}

impl ElementCreatedEventPayload {
    /// Encodes this payload as its wire object.
    pub fn encode(&self) -> (r: String)
        ensures
            r@ == spec_element_body(
                self._id@,
                self.user_id@,
                self.selected,
                self.locked_by,
                self.x as int,
                self.y as int,
                self.rotation as int,
                self.scale_x as int,
                self.scale_y as int,
                self.z_index as int,
                self.created_at@,
                self.text@,
                self.element_type@,
                self.board_id@,
                self.color@,
            ),
    {
        let mut fields: Vec<BodyField> = Vec::new();
        fields.push(BodyField { key: "_id".to_owned(), value: FieldValue::Str(self._id.clone()) });
        fields.push(
            BodyField { key: "userId".to_owned(), value: FieldValue::Str(self.user_id.clone()) },
        );
        fields.push(
            BodyField { key: "selected".to_owned(), value: FieldValue::Bool(self.selected) },
        );
        let locked_value = match &self.locked_by {
            Some(u) => FieldValue::Str(u.clone()),
            None => FieldValue::Null,
        };
        fields.push(BodyField { key: "lockedBy".to_owned(), value: locked_value });
        fields.push(BodyField { key: "x".to_owned(), value: FieldValue::Int(self.x) });
        fields.push(BodyField { key: "y".to_owned(), value: FieldValue::Int(self.y) });
        fields.push(BodyField { key: "rotation".to_owned(), value: FieldValue::Int(self.rotation) });
        fields.push(BodyField { key: "scaleX".to_owned(), value: FieldValue::Int(self.scale_x) });
        fields.push(BodyField { key: "scaleY".to_owned(), value: FieldValue::Int(self.scale_y) });
        fields.push(
            BodyField { key: "zIndex".to_owned(), value: FieldValue::Int(self.z_index as i64) },
        );
        fields.push(
            BodyField {
                key: "createdAt".to_owned(),
                value: FieldValue::Str(self.created_at.clone()),
            },
        );
        fields.push(BodyField { key: "text".to_owned(), value: FieldValue::Str(self.text.clone()) });
        fields.push(
            BodyField {
                key: "elementType".to_owned(),
                value: FieldValue::Str(self.element_type.clone()),
            },
        );
        fields.push(
            BodyField { key: "boardId".to_owned(), value: FieldValue::Str(self.board_id.clone()) },
        );
        fields.push(
            BodyField { key: "color".to_owned(), value: FieldValue::Str(self.color.clone()) },
        );
        let mut out = String::new();
        render_body_into(&mut out, &fields);
        proof {
            assert(members_view(fields@) =~= seq![
                smem("_id"@, JsonVal::Str(self._id@)),
                smem("userId"@, JsonVal::Str(self.user_id@)),
                smem("selected"@, JsonVal::Bool(self.selected)),
                smem("lockedBy"@, crate::json::opt_str_val(self.locked_by)),
                smem("x"@, JsonVal::Int(self.x as int)),
                smem("y"@, JsonVal::Int(self.y as int)),
                smem("rotation"@, JsonVal::Int(self.rotation as int)),
                smem("scaleX"@, JsonVal::Int(self.scale_x as int)),
                smem("scaleY"@, JsonVal::Int(self.scale_y as int)),
                smem("zIndex"@, JsonVal::Int(self.z_index as int)),
                smem("createdAt"@, JsonVal::Str(self.created_at@)),
                smem("text"@, JsonVal::Str(self.text@)),
                smem("elementType"@, JsonVal::Str(self.element_type@)),
                smem("boardId"@, JsonVal::Str(self.board_id@)),
                smem("color"@, JsonVal::Str(self.color@)),
            ]);
        }
        out
    }
}

/// The response payload confirming a creation: the full new element.
pub struct ElementCreatedMessage {
    pub _id: String,
    pub user_id: String,
    pub selected: bool,
    pub locked_by: Option<String>,
    pub x: i64,
    pub y: i64,
    pub rotation: i64,
    pub scale_x: i64,
    pub scale_y: i64,
    pub z_index: i32,
    pub created_at: String,
    pub text: String,
    pub element_type: String,
    pub board_id: String,
    pub color: String,
}

/// A request to create one element.
pub struct CreateElementMessage {
    pub _id: String,
    pub selected: bool,
    pub user_id: String,
    pub locked_by: Option<String>,
    pub x: i64,
    pub y: i64,
    pub rotation: i64,
    pub scale_x: i64,
    pub scale_y: i64,
    pub z_index: i32,
    pub created_at: String,
    pub text: String,
    pub element_type: String,
    pub board_id: String,
    pub color: String,
}

/// The shapes a create-element body must have.
pub open spec fn create_fields_ok(ms: Seq<crate::json::JsonMember>) -> bool {
    &&& field_is_str(ms, "_id"@)
    &&& field_is_str(ms, "userId"@)
    &&& crate::fields::field_is_bool(ms, "selected"@)
    &&& crate::fields::field_is_opt_str(ms, "lockedBy"@)
    &&& crate::fields::field_is_int(ms, "x"@)
    &&& crate::fields::field_is_int(ms, "y"@)
    &&& crate::fields::field_is_int(ms, "rotation"@)
    &&& crate::fields::field_is_int(ms, "scaleX"@)
    &&& crate::fields::field_is_int(ms, "scaleY"@)
    &&& (spec_field(ms, "zIndex"@) matches Some(JsonVal::Int(v)) && i32::MIN <= v <= i32::MAX)
    &&& field_is_str(ms, "createdAt"@)
    &&& field_is_str(ms, "text"@)
    &&& field_is_str(ms, "elementType"@)
    &&& field_is_str(ms, "boardId"@)
    &&& field_is_str(ms, "color"@)
}

/// The stored element a create request describes.
pub open spec fn element_of_create(m: CreateElementMessage) -> Element {
    Element {
        _id: m._id,
        selected: m.selected,
        locked_by: m.locked_by,
        x: m.x,
        y: m.y,
        rotation: m.rotation,
        scale_x: m.scale_x,
        scale_y: m.scale_y,
        z_index: m.z_index,
        created_at: m.created_at,
        text: m.text,
        element_type: m.element_type,
        board_id: m.board_id,
        color: m.color,
    }
}

/// How a parsed create element request relates to the decoded body
/// it came from.
pub open spec fn create_element_msg_matches(m: CreateElementMessage, ms: Seq<crate::json::JsonMember>) -> bool {
    &&& spec_field(ms, "_id"@) == Some(JsonVal::Str(m._id@))
    &&& spec_field(ms, "userId"@) == Some(JsonVal::Str(m.user_id@))
    &&& spec_field(ms, "selected"@) == Some(
        JsonVal::Bool(m.selected),
    )
    &&& (match m.locked_by {
        Some(u) => spec_field(ms, "lockedBy"@) == Some(
            JsonVal::Str(u@),
        ),
        None => spec_field(ms, "lockedBy"@) is None || spec_field(
            ms,
            "lockedBy"@,
        ) == Some(JsonVal::Null),
    })
    &&& spec_field(ms, "x"@) == Some(JsonVal::Int(m.x as int))
    &&& spec_field(ms, "y"@) == Some(JsonVal::Int(m.y as int))
    &&& spec_field(ms, "rotation"@) == Some(
        JsonVal::Int(m.rotation as int),
    )
    &&& spec_field(ms, "scaleX"@) == Some(
        JsonVal::Int(m.scale_x as int),
    )
    &&& spec_field(ms, "scaleY"@) == Some(
        JsonVal::Int(m.scale_y as int),
    )
    &&& spec_field(ms, "zIndex"@) == Some(
        JsonVal::Int(m.z_index as int),
    )
    &&& spec_field(ms, "createdAt"@) == Some(
        JsonVal::Str(m.created_at@),
    )
    &&& spec_field(ms, "text"@) == Some(JsonVal::Str(m.text@))
    &&& spec_field(ms, "elementType"@) == Some(
        JsonVal::Str(m.element_type@),
    )
    &&& spec_field(ms, "boardId"@) == Some(
        JsonVal::Str(m.board_id@),
    )
    &&& spec_field(ms, "color"@) == Some(JsonVal::Str(m.color@))
}

/// Everything handling one create element request guarantees, for
/// a store `pre` before and `post` after the call: the exact store
/// effect, response envelope and emissions.
pub open spec fn create_element_post(
    m: CreateElementMessage,
    pre: Store,
    post: Store,
    ctx: ElementContext,
    r0: Result<ServerMessage, ServerMessage>,
    ems: Seq<Emission>,
) -> bool {
    &&& (post.wf())
    &&& (post.boards == pre.boards)
    &&& (post.clients == pre.clients)
    &&& (post.users == pre.users)
    &&& (post.active_members == pre.active_members)
    &&& (if has_element(pre.elements@, m._id@) {
            &&& r0 is Err
            &&& post.elements == pre.elements
            &&& ems.len() == 0
            &&& r0->Err_0.message_type@ == "response_"@ + "createelement"@
            &&& r0->Err_0.status@ == "ERROR"@
            &&& r0->Err_0.body@ == spec_err_body("Element could not be created"@, m._id@)
        } else {
            &&& r0 is Ok
            &&& post.elements@ == pre.elements@.push(element_of_create(m))
            &&& r0->Ok_0.message_type@ == "response_"@ + "createelement"@
            &&& r0->Ok_0.status@ == "OK"@
            &&& r0->Ok_0.body@ == m.spec_body()
            &&& ems.len() == 1
            &&& emission_reaches(
                ems[0],
                ctx.subjects,
                m.board_id@,
                element_event_name(ElementEventType::Created),
                m.spec_body(),
            )
        })
}

impl CreateElementMessage {
    /// The full body text for this request's element.
    pub open spec fn spec_body(self) -> Seq<char> {
        spec_element_body(
            self._id@,
            self.user_id@,
            self.selected,
            self.locked_by,
            self.x as int,
            self.y as int,
            self.rotation as int,
            self.scale_x as int,
            self.scale_y as int,
            self.z_index as int,
            self.created_at@,
            self.text@,
            self.element_type@,
            self.board_id@,
            self.color@,
        )
    }

    /// Reads the request fields out of a decoded body.
    pub fn parse(body: &Vec<BodyField>) -> (r: Option<Self>)
        ensures
            match r {
                Some(m) => create_element_msg_matches(m, members_view(body@)),
                None => !create_fields_ok(members_view(body@)),
            },
    {
        let _id = match get_str(body, "_id") {
            Some(v) => v,
            None => { return None; },
        };
        let user_id = match get_str(body, "userId") {
            Some(v) => v,
            None => { return None; },
        };
        let selected = match crate::fields::get_bool(body, "selected") {
            Some(v) => v,
            None => { return None; },
        };
        let locked_by = match crate::fields::get_opt_str(body, "lockedBy") {
            Some(v) => v,
            None => { return None; },
        };
        let x = match crate::fields::get_int(body, "x") {
            Some(v) => v,
            None => { return None; },
        };
        let y = match crate::fields::get_int(body, "y") {
            Some(v) => v,
            None => { return None; },
        };
        let rotation = match crate::fields::get_int(body, "rotation") {
            Some(v) => v,
            None => { return None; },
        };
        let scale_x = match crate::fields::get_int(body, "scaleX") {
            Some(v) => v,
            None => { return None; },
        };
        let scale_y = match crate::fields::get_int(body, "scaleY") {
            Some(v) => v,
            None => { return None; },
        };
        let z_raw = match crate::fields::get_int(body, "zIndex") {
            Some(v) => v,
            None => { return None; },
        };
        if z_raw < i32::MIN as i64 || z_raw > i32::MAX as i64 {
            return None;
        }
        let z_index = z_raw as i32;
        let created_at = match get_str(body, "createdAt") {
            Some(v) => v,
            None => { return None; },
        };
        let text = match get_str(body, "text") {
            Some(v) => v,
            None => { return None; },
        };
        let element_type = match get_str(body, "elementType") {
            Some(v) => v,
            None => { return None; },
        };
        let board_id = match get_str(body, "boardId") {
            Some(v) => v,
            None => { return None; },
        };
        let color = match get_str(body, "color") {
            Some(v) => v,
            None => { return None; },
        };
        Some(
            CreateElementMessage {
                _id,
                selected,
                user_id,
                locked_by,
                x,
                y,
                rotation,
                scale_x,
                scale_y,
                z_index,
                created_at,
                text,
                element_type,
                board_id,
                color,
            },
        )
    }

    /// Stores the new element, announces it to the board's subscribers and
    /// confirms it; a taken id is rejected and changes nothing.
    pub fn handle(&self, store: &mut Store, context: &ElementContext) -> (r: (
        Result<ServerMessage, ServerMessage>,
        Vec<Emission>,
    ))
        requires
            old(store).wf(),
            context.subjects.wf(),
        ensures
            create_element_post(*self, *old(store), *final(store), *context, r.0, r.1@),
    {
        let locked_copy = match &self.locked_by {
            Some(u) => Some(u.clone()),
            None => None,
        };
        let element = Element {
            _id: self._id.clone(),
            selected: self.selected,
            locked_by: locked_copy,
            x: self.x,
            y: self.y,
            rotation: self.rotation,
            scale_x: self.scale_x,
            scale_y: self.scale_y,
            z_index: self.z_index,
            created_at: self.created_at.clone(),
            text: self.text.clone(),
            element_type: self.element_type.clone(),
            board_id: self.board_id.clone(),
            color: self.color.clone(),
        };
        if !store.insert_element(element) {
            let err = ErrorResponseBody {
                message: "Element could not be created".to_owned(),
                body: self._id.clone(),
            };
            return (
                Err(ServerMessage::error_response("createelement".to_owned(), err.encode())),
                Vec::new(),
            );
        }
        let payload = ElementCreatedEventPayload {
            _id: self._id.clone(),
            user_id: self.user_id.clone(),
            selected: self.selected,
            locked_by: match &self.locked_by {
                Some(u) => Some(u.clone()),
                None => None,
            },
            x: self.x,
            y: self.y,
            rotation: self.rotation,
            scale_x: self.scale_x,
            scale_y: self.scale_y,
            z_index: self.z_index,
            created_at: self.created_at.clone(),
            text: self.text.clone(),
            element_type: self.element_type.clone(),
            board_id: self.board_id.clone(),
            color: self.color.clone(),
        };
        let event_body = payload.encode();
        let response_body = payload.encode();
        let emission = context.emit_element_event(
            self.board_id.as_str(),
            ElementEvent { event_type: ElementEventType::Created, body: event_body },
        );
        let mut emissions: Vec<Emission> = Vec::new();
        emissions.push(emission);
        (
            Ok(ServerMessage::ok_response("createelement".to_owned(), response_body)),
            emissions,
        )
    }
}

/// The body announcing a content update: the element, the editor and the
/// changed fields, absent ones as null.
pub open spec fn spec_updated_body(
    id: Seq<char>,
    user: Seq<char>,
    x: Option<i64>,
    y: Option<i64>,
    rotation: Option<i64>,
    scale_x: Option<i64>,
    scale_y: Option<i64>,
    z_index: Option<i32>,
    text: Option<String>,
    color: Option<String>,
) -> Seq<char> {
    spec_render_body(
        seq![
            smem("_id"@, JsonVal::Str(id)),
            smem("userId"@, JsonVal::Str(user)),
            smem("x"@, crate::json::opt_int_val(x)),
            smem("y"@, crate::json::opt_int_val(y)),
            smem("rotation"@, crate::json::opt_int_val(rotation)),
            smem("scaleX"@, crate::json::opt_int_val(scale_x)),
            smem("scaleY"@, crate::json::opt_int_val(scale_y)),
            smem("zIndex"@, crate::json::opt_i32_val(z_index)),
            smem("text"@, crate::json::opt_str_val(text)),
            smem("color"@, crate::json::opt_str_val(color)),
        ],
    )
}

/// The body confirming a content update: the element id alone.
pub open spec fn spec_id_body(id: Seq<char>) -> Seq<char> {
    spec_render_body(seq![smem("id"@, JsonVal::Str(id))])
}

/// The response payload confirming a content update.
pub struct ElementUpdatedMessage {
    pub id: String,
}

impl ElementUpdatedMessage {
    /// Encodes this payload as its wire object.
    pub fn encode(&self) -> (r: String)
        ensures
            r@ == spec_id_body(self.id@),
    {
        let mut fields: Vec<BodyField> = Vec::new();
        fields.push(BodyField { key: "id".to_owned(), value: FieldValue::Str(self.id.clone()) });
        let mut out = String::new();
        render_body_into(&mut out, &fields);
        proof {
            assert(members_view(fields@) =~= seq![smem("id"@, JsonVal::Str(self.id@))]);
        }
        out
    }
}

/// A request to update an element's content or geometry; only the lock
/// holder may.
pub struct UpdateElementMessage {
    pub _id: String,
    pub user_id: String,
    pub board_id: String,
    pub x: Option<i64>,
    pub y: Option<i64>,
    pub rotation: Option<i64>,
    pub scale_x: Option<i64>,
    pub scale_y: Option<i64>,
    pub z_index: Option<i32>,
    pub text: Option<String>,
    pub color: Option<String>,
}

/// An optional field matches an optional integer.
pub open spec fn opt_int_matches(
    ms: Seq<crate::json::JsonMember>,
    key: Seq<char>,
    o: Option<i64>,
) -> bool {
    match o {
        Some(v) => spec_field(ms, key) == Some(JsonVal::Int(v as int)),
        None => spec_field(ms, key) is None || spec_field(ms, key) == Some(JsonVal::Null),
    }
}

/// An optional field matches an optional string.
pub open spec fn opt_str_matches(
    ms: Seq<crate::json::JsonMember>,
    key: Seq<char>,
    o: Option<String>,
) -> bool {
    match o {
        Some(v) => spec_field(ms, key) == Some(JsonVal::Str(v@)),
        None => spec_field(ms, key) is None || spec_field(ms, key) == Some(JsonVal::Null),
    }
}

/// The shapes an update-element body must have.
pub open spec fn update_fields_ok(ms: Seq<crate::json::JsonMember>) -> bool {
    &&& field_is_str(ms, "_id"@)
    &&& field_is_str(ms, "userId"@)
    &&& field_is_str(ms, "boardId"@)
    &&& crate::fields::field_is_opt_int(ms, "x"@)
    &&& crate::fields::field_is_opt_int(ms, "y"@)
    &&& crate::fields::field_is_opt_int(ms, "rotation"@)
    &&& crate::fields::field_is_opt_int(ms, "scaleX"@)
    &&& crate::fields::field_is_opt_int(ms, "scaleY"@)
    &&& (match spec_field(ms, "zIndex"@) { None => true, Some(JsonVal::Null) => true, Some(JsonVal::Int(v)) => i32::MIN <= v <= i32::MAX, _ => false, })
    &&& crate::fields::field_is_opt_str(ms, "text"@)
    &&& crate::fields::field_is_opt_str(ms, "color"@)
}

/// The update an update request describes; the lock is never touched.
pub open spec fn update_of(m: UpdateElementMessage) -> crate::records::UpdateElement {
    crate::records::UpdateElement {
        selected: None,
        locked_by: None,
        x: m.x,
        y: m.y,
        rotation: m.rotation,
        scale_x: m.scale_x,
        scale_y: m.scale_y,
        z_index: m.z_index,
        text: m.text,
        color: m.color,
    }
}

/// How a parsed update element request relates to the decoded body
/// it came from.
pub open spec fn update_element_msg_matches(m: UpdateElementMessage, ms: Seq<crate::json::JsonMember>) -> bool {
    &&& spec_field(ms, "_id"@) == Some(JsonVal::Str(m._id@))
    &&& spec_field(ms, "userId"@) == Some(JsonVal::Str(m.user_id@))
    &&& spec_field(ms, "boardId"@) == Some(
        JsonVal::Str(m.board_id@),
    )
    &&& opt_int_matches(ms, "x"@, m.x)
    &&& opt_int_matches(ms, "y"@, m.y)
    &&& opt_int_matches(ms, "rotation"@, m.rotation)
    &&& opt_int_matches(ms, "scaleX"@, m.scale_x)
    &&& opt_int_matches(ms, "scaleY"@, m.scale_y)
    &&& (match m.z_index {
        Some(v) => spec_field(ms, "zIndex"@) == Some(
            JsonVal::Int(v as int),
        ),
        None => spec_field(ms, "zIndex"@) is None || spec_field(
            ms,
            "zIndex"@,
        ) == Some(JsonVal::Null),
    })
    &&& opt_str_matches(ms, "text"@, m.text)
    &&& opt_str_matches(ms, "color"@, m.color)
}

/// Everything handling one update element request guarantees, for
/// a store `pre` before and `post` after the call: the exact store
/// effect, response envelope and emissions.
pub open spec fn update_element_post(
    m: UpdateElementMessage,
    pre: Store,
    post: Store,
    ctx: ElementContext,
    r0: Result<ServerMessage, ServerMessage>,
    ems: Seq<Emission>,
) -> bool {
    &&& (post.wf())
    &&& (post.boards == pre.boards)
    &&& (post.clients == pre.clients)
    &&& (post.users == pre.users)
    &&& (post.active_members == pre.active_members)
    &&& (match spec_find_element(pre.elements@, m._id@) {
            None => {
                &&& r0 is Err
                &&& post.elements == pre.elements
                &&& ems.len() == 0
                &&& r0->Err_0.body@ == spec_err_body("No Element found"@, spec_id_body(m._id@))
            },
            Some(j) => match lock_state(pre.elements@[j]) {
                None => {
                    &&& r0 is Err
                    &&& post.elements == pre.elements
                    &&& ems.len() == 0
                    &&& r0->Err_0.body@ == spec_err_body(
                        "Element needs to be locked first"@,
                        spec_id_body(m._id@),
                    )
                },
                Some(h) => if h == m.user_id@ {
                    &&& r0 is Ok
                    &&& post.elements@ == pre.elements@.update(
                        j,
                        crate::records::spec_updated_element(
                            pre.elements@[j],
                            update_of(m),
                        ),
                    )
                    &&& r0->Ok_0.message_type@ == "response_"@ + "updateelement"@
                    &&& r0->Ok_0.status@ == "OK"@
                    &&& r0->Ok_0.body@ == spec_id_body(m._id@)
                    &&& ems.len() == 1
                    &&& emission_reaches(
                        ems[0],
                        ctx.subjects,
                        m.board_id@,
                        element_event_name(ElementEventType::Updated),
                        m.spec_body(),
                    )
                } else {
                    &&& r0 is Err
                    &&& post.elements == pre.elements
                    &&& ems.len() == 0
                    &&& r0->Err_0.body@ == spec_err_body(
                        "Element currently locked by someone else"@,
                        spec_id_body(m._id@),
                    )
                },
            },
        })
}

impl UpdateElementMessage {
    /// The event body for this request.
    pub open spec fn spec_body(self) -> Seq<char> {
        spec_updated_body(
            self._id@,
            self.user_id@,
            self.x,
            self.y,
            self.rotation,
            self.scale_x,
            self.scale_y,
            self.z_index,
            self.text,
            self.color,
        )
    }

    /// Reads the request fields out of a decoded body.
    pub fn parse(body: &Vec<BodyField>) -> (r: Option<Self>)
        ensures
            match r {
                Some(m) => update_element_msg_matches(m, members_view(body@)),
                None => !update_fields_ok(members_view(body@)),
            },
    {
        let _id = match get_str(body, "_id") {
            Some(v) => v,
            None => { return None; },
        };
        let user_id = match get_str(body, "userId") {
            Some(v) => v,
            None => { return None; },
        };
        let board_id = match get_str(body, "boardId") {
            Some(v) => v,
            None => { return None; },
        };
        let x = match crate::fields::get_opt_int(body, "x") {
            Some(v) => v,
            None => { return None; },
        };
        let y = match crate::fields::get_opt_int(body, "y") {
            Some(v) => v,
            None => { return None; },
        };
        let rotation = match crate::fields::get_opt_int(body, "rotation") {
            Some(v) => v,
            None => { return None; },
        };
        let scale_x = match crate::fields::get_opt_int(body, "scaleX") {
            Some(v) => v,
            None => { return None; },
        };
        let scale_y = match crate::fields::get_opt_int(body, "scaleY") {
            Some(v) => v,
            None => { return None; },
        };
        let z_raw = match crate::fields::get_opt_int(body, "zIndex") {
            Some(v) => v,
            None => { return None; },
        };
        let z_index = match z_raw {
            Some(v) => {
                if v < i32::MIN as i64 || v > i32::MAX as i64 {
                    return None;
                }
                Some(v as i32)
            },
            None => None,
        };
        let text = match crate::fields::get_opt_str(body, "text") {
            Some(v) => v,
            None => { return None; },
        };
        let color = match crate::fields::get_opt_str(body, "color") {
            Some(v) => v,
            None => { return None; },
        };
        Some(
            UpdateElementMessage {
                _id,
                user_id,
                board_id,
                x,
                y,
                rotation,
                scale_x,
                scale_y,
                z_index,
                text,
                color,
            },
        )
    }

    /// Applies the update when the requesting user holds the element's
    /// lock, announces the new values and confirms; an unlocked element,
    /// a lock held by another user, or an unknown element is rejected and
    /// changes nothing.
    pub fn handle(&self, store: &mut Store, context: &ElementContext) -> (r: (
        Result<ServerMessage, ServerMessage>,
        Vec<Emission>,
    ))
        requires
            old(store).wf(),
            context.subjects.wf(),
        ensures
            update_element_post(*self, *old(store), *final(store), *context, r.0, r.1@),
    {
        let echo = ElementUpdatedMessage { id: self._id.clone() };
        let j = match store.find_element(self._id.as_str()) {
            Some(j) => j,
            None => {
                proof {
                    assert(spec_find_element(store.elements@, self._id@) is None);
                }
                let err = ErrorResponseBody {
                    message: "No Element found".to_owned(),
                    body: echo.encode(),
                };
                return (
                    Err(ServerMessage::error_response("updateelement".to_owned(), err.encode())),
                    Vec::new(),
                );
            },
        };
        proof {
            let ghost jj = spec_find_element(store.elements@, self._id@)->Some_0;
            assert(store.elements@[jj]._id@ == self._id@);
            assert(jj == j) by {
                if jj != j {
                    assert(store.elements@[jj]._id@ != store.elements@[j as int]._id@);
                }
            }
        }
        let holds = match &store.elements[j].locked_by {
            Some(h) => crate::util::str_eq(h.as_str(), self.user_id.as_str()),
            None => {
                let err = ErrorResponseBody {
                    message: "Element needs to be locked first".to_owned(),
                    body: echo.encode(),
                };
                return (
                    Err(ServerMessage::error_response("updateelement".to_owned(), err.encode())),
                    Vec::new(),
                );
            },
        };
        if !holds {
            let err = ErrorResponseBody {
                message: "Element currently locked by someone else".to_owned(),
                body: echo.encode(),
            };
            return (
                Err(ServerMessage::error_response("updateelement".to_owned(), err.encode())),
                Vec::new(),
            );
        }
        let update = crate::records::UpdateElement {
            selected: None,
            locked_by: None,
            x: self.x,
            y: self.y,
            rotation: self.rotation,
            scale_x: self.scale_x,
            scale_y: self.scale_y,
            z_index: self.z_index,
            text: match &self.text {
                Some(t) => Some(t.clone()),
                None => None,
            },
            color: match &self.color {
                Some(c) => Some(c.clone()),
                None => None,
            },
        };
        let updated = store.elements[j].updated(&update);
        proof {
            assert(update == update_of(*self));
        }
        store.replace_element_at(j, updated);
        let mut fields: Vec<BodyField> = Vec::new();
        fields.push(BodyField { key: "_id".to_owned(), value: FieldValue::Str(self._id.clone()) });
        fields.push(
            BodyField { key: "userId".to_owned(), value: FieldValue::Str(self.user_id.clone()) },
        );
        fields.push(
            BodyField {
                key: "x".to_owned(),
                value: match self.x {
                    Some(v) => FieldValue::Int(v),
                    None => FieldValue::Null,
                },
            },
        );
        fields.push(
            BodyField {
                key: "y".to_owned(),
                value: match self.y {
                    Some(v) => FieldValue::Int(v),
                    None => FieldValue::Null,
                },
            },
        );
        fields.push(
            BodyField {
                key: "rotation".to_owned(),
                value: match self.rotation {
                    Some(v) => FieldValue::Int(v),
                    None => FieldValue::Null,
                },
            },
        );
        fields.push(
            BodyField {
                key: "scaleX".to_owned(),
                value: match self.scale_x {
                    Some(v) => FieldValue::Int(v),
                    None => FieldValue::Null,
                },
            },
        );
        fields.push(
            BodyField {
                key: "scaleY".to_owned(),
                value: match self.scale_y {
                    Some(v) => FieldValue::Int(v),
                    None => FieldValue::Null,
                },
            },
        );
        fields.push(
            BodyField {
                key: "zIndex".to_owned(),
                value: match self.z_index {
                    Some(v) => FieldValue::Int(v as i64),
                    None => FieldValue::Null,
                },
            },
        );
        fields.push(
            BodyField {
                key: "text".to_owned(),
                value: match &self.text {
                    Some(t) => FieldValue::Str(t.clone()),
                    None => FieldValue::Null,
                },
            },
        );
        fields.push(
            BodyField {
                key: "color".to_owned(),
                value: match &self.color {
                    Some(c) => FieldValue::Str(c.clone()),
                    None => FieldValue::Null,
                },
            },
        );
        let mut event_body = String::new();
        render_body_into(&mut event_body, &fields);
        proof {
            assert(members_view(fields@) =~= seq![
                smem("_id"@, JsonVal::Str(self._id@)),
                smem("userId"@, JsonVal::Str(self.user_id@)),
                smem("x"@, crate::json::opt_int_val(self.x)),
                smem("y"@, crate::json::opt_int_val(self.y)),
                smem("rotation"@, crate::json::opt_int_val(self.rotation)),
                smem("scaleX"@, crate::json::opt_int_val(self.scale_x)),
                smem("scaleY"@, crate::json::opt_int_val(self.scale_y)),
                smem("zIndex"@, crate::json::opt_i32_val(self.z_index)),
                smem("text"@, crate::json::opt_str_val(self.text)),
                smem("color"@, crate::json::opt_str_val(self.color)),
            ]);
        }
        let emission = context.emit_element_event(
            self.board_id.as_str(),
            ElementEvent { event_type: ElementEventType::Updated, body: event_body },
        );
        let mut emissions: Vec<Emission> = Vec::new();
        emissions.push(emission);
        (
            Ok(ServerMessage::ok_response("updateelement".to_owned(), echo.encode())),
            emissions,
        )
    }
}

/// A request to unlock one element.
pub struct UnlockElementMessage {
    pub _id: String,
    pub user_id: String,
    pub board_id: String,
}

/// How a parsed unlock element request relates to the decoded body
/// it came from.
pub open spec fn unlock_element_msg_matches(m: UnlockElementMessage, ms: Seq<crate::json::JsonMember>) -> bool {
    &&& spec_field(ms, "_id"@) == Some(JsonVal::Str(m._id@))
    &&& spec_field(ms, "userId"@) == Some(JsonVal::Str(m.user_id@))
    &&& spec_field(ms, "boardId"@) == Some(
        JsonVal::Str(m.board_id@),
    )
}

/// The shapes a unlock element body must have.
pub open spec fn unlock_element_fields_ok(ms: Seq<crate::json::JsonMember>) -> bool {
    &&& field_is_str(ms, "_id"@)
    &&& field_is_str(ms, "userId"@)
    &&& field_is_str(ms, "boardId"@)
}

/// Everything handling one unlock element request guarantees, for
/// a store `pre` before and `post` after the call: the exact store
/// effect, response envelope and emissions.
pub open spec fn unlock_element_post(
    m: UnlockElementMessage,
    pre: Store,
    post: Store,
    ctx: ElementContext,
    r0: Result<ServerMessage, ServerMessage>,
    ems: Seq<Emission>,
) -> bool {
    &&& (post.wf())
    &&& (post.boards == pre.boards)
    &&& (post.clients == pre.clients)
    &&& (post.users == pre.users)
    &&& (post.active_members == pre.active_members)
    &&& (match spec_find_element(pre.elements@, m._id@) {
            None => {
                &&& r0 is Err
                &&& post.elements == pre.elements
                &&& ems.len() == 0
                &&& r0->Err_0.message_type@ == "response_"@ + "unlockelement"@
                &&& r0->Err_0.status@ == "ERROR"@
                &&& r0->Err_0.body@ == spec_err_body("Element not found"@, m._id@)
            },
            Some(j) => match unlock_signal_of(
                lock_state(pre.elements@[j]),
                m.user_id@,
            ) {
                UnlockSignal::Released => {
                    &&& post.elements@ == pre.elements@.update(
                        j,
                        with_lock(pre.elements@[j], None),
                    )
                    &&& r0 is Ok
                    &&& r0->Ok_0.message_type@ == "response_"@ + "unlockelement"@
                    &&& r0->Ok_0.status@ == "OK"@
                    &&& r0->Ok_0.body@ == spec_sole_id_body(m._id@)
                    &&& ems.len() == 1
                    &&& emission_reaches(
                        ems[0],
                        ctx.subjects,
                        m.board_id@,
                        element_event_name(ElementEventType::Unlocked),
                        spec_sole_id_body(m._id@),
                    )
                },
                UnlockSignal::AlreadyUnlocked => {
                    &&& post.elements == pre.elements
                    &&& ems.len() == 0
                    &&& r0 is Err
                    &&& r0->Err_0.message_type@ == "response_"@ + "unlockelement"@
                    &&& r0->Err_0.status@ == "ERROR"@
                    &&& r0->Err_0.body@ == spec_err_body("Element already unlocked"@, m._id@)
                },
                UnlockSignal::HeldByOther => {
                    &&& post.elements == pre.elements
                    &&& ems.len() == 0
                    &&& r0 is Err
                    &&& r0->Err_0.message_type@ == "response_"@ + "unlockelement"@
                    &&& r0->Err_0.status@ == "ERROR"@
                    &&& r0->Err_0.body@ == spec_err_body(
                        "Element currently locked by someone else"@,
                        m._id@,
                    )
                },
            },
        })
}

impl UnlockElementMessage {
    /// Reads the request fields out of a decoded body.
    pub fn parse(body: &Vec<BodyField>) -> (r: Option<Self>)
        ensures
            match r {
                Some(m) => unlock_element_msg_matches(m, members_view(body@)),
                None => !unlock_element_fields_ok(members_view(body@)),
            },
    {
        let _id = match get_str(body, "_id") {
            Some(v) => v,
            None => {
                return None;
            },
        };
        let user_id = match get_str(body, "userId") {
            Some(v) => v,
            None => {
                return None;
            },
        };
        let board_id = match get_str(body, "boardId") {
            Some(v) => v,
            None => {
                return None;
            },
        };
        Some(UnlockElementMessage { _id, user_id, board_id })
    }

    /// Unlocks the element for the requesting user. Only the holder may
    /// unlock; an already-unlocked element is rejected distinctly; in both
    /// rejection cases nothing changes.
    pub fn handle(&self, store: &mut Store, context: &ElementContext) -> (r: (
        Result<ServerMessage, ServerMessage>,
        Vec<Emission>,
    ))
        requires
            old(store).wf(),
            context.subjects.wf(),
        ensures
            unlock_element_post(*self, *old(store), *final(store), *context, r.0, r.1@),
    {
        let j = match store.find_element(self._id.as_str()) {
            Some(j) => j,
            None => {
                proof {
                    assert(spec_find_element(store.elements@, self._id@) is None);
                }
                let err = ErrorResponseBody {
                    message: "Element not found".to_owned(),
                    body: self._id.clone(),
                };
                return (
                    Err(ServerMessage::error_response("unlockelement".to_owned(), err.encode())),
                    Vec::new(),
                );
            },
        };
        proof {
            let ghost jj = spec_find_element(store.elements@, self._id@)->Some_0;
            assert(store.elements@[jj]._id@ == self._id@);
            assert(jj == j) by {
                if jj != j {
                    assert(store.elements@[jj]._id@ != store.elements@[j as int]._id@);
                }
            }
        }
        match classify_unlock(&store.elements[j], &self.user_id) {
            UnlockSignal::Released => {
                let elem = &store.elements[j];
                let mut unlocked = elem.duplicate();
                unlocked.locked_by = None;
                store.replace_element_at(j, unlocked);
                let event_payload = ElementUnlockedEventPayload { _id: self._id.clone() };
                let emission = context.emit_element_event(
                    self.board_id.as_str(),
                    ElementEvent {
                        event_type: ElementEventType::Unlocked,
                        body: event_payload.encode(),
                    },
                );
                let mut emissions: Vec<Emission> = Vec::new();
                emissions.push(emission);
                let response_payload = ElementUnlockedMessage { _id: self._id.clone() };
                (
                    Ok(
                        ServerMessage::ok_response(
                            "unlockelement".to_owned(),
                            response_payload.encode(),
                        ),
                    ),
                    emissions,
                )
            },
            UnlockSignal::AlreadyUnlocked => {
                let err = ErrorResponseBody {
                    message: "Element already unlocked".to_owned(),
                    body: self._id.clone(),
                };
                (
                    Err(ServerMessage::error_response("unlockelement".to_owned(), err.encode())),
                    Vec::new(),
                )
            },
            UnlockSignal::HeldByOther => {
                let err = ErrorResponseBody {
                    message: "Element currently locked by someone else".to_owned(),
                    body: self._id.clone(),
                };
                (
                    Err(ServerMessage::error_response("unlockelement".to_owned(), err.encode())),
                    Vec::new(),
                )
            },
        }
    }
}

} // verus!
