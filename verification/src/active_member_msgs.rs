//! The active-member request handlers: joining a board, leaving it,
//! switching boards and moving the cursor.

use vstd::prelude::*;
use crate::context::ActiveMemberContext;
use crate::context::ActiveMemberEvent;
use crate::context::ActiveMemberEventType;
use crate::context::active_member_event_name;
use crate::element_msgs::emission_reaches;
use crate::fields::field_is_str;
use crate::fields::get_str;
use crate::fields::spec_field;
use crate::hub::Emission;
use crate::json::BodyField;
use crate::json::FieldValue;
use crate::json::JsonVal;
use crate::json::members_view;
use crate::json::render_body_into;
use crate::json::smem;
use crate::json::spec_render_body;
use crate::records::ActiveMember;
use crate::server_msg::ServerMessage;
use crate::store::Store;
use crate::store::has_member_for;

verus! {

/// The index of the active member for this user, if stored.
pub open spec fn spec_find_member(s: Seq<ActiveMember>, user_id: Seq<char>) -> Option<int> {
    if has_member_for(s, user_id) {
        Some(choose|i: int| 0 <= i < s.len() && s[i].user_id@ == user_id)
    } else {
        None
    }
}

/// The body announcing a new active member.
pub open spec fn spec_created_member_body(
    id: Seq<char>,
    user: Seq<char>,
    board: Seq<char>,
) -> Seq<char> {
    spec_render_body(
        seq![
            smem("_id"@, JsonVal::Str(id)),
            smem("userId"@, JsonVal::Str(user)),
            smem("boardId"@, JsonVal::Str(board)),
        ],
    )
}

/// The body announcing a removed active member.
pub open spec fn spec_removed_member_body(user: Seq<char>) -> Seq<char> {
    spec_render_body(seq![smem("userId"@, JsonVal::Str(user))])
}

/// The body announcing a cursor position.
pub open spec fn spec_position_body(user: Seq<char>, x: int, y: int) -> Seq<char> {
    spec_render_body(
        seq![
            smem("userId"@, JsonVal::Str(user)),
            smem("x"@, JsonVal::Int(x)),
            smem("y"@, JsonVal::Int(y)),
        ],
    )
}

/// The body confirming a board switch.
pub open spec fn spec_changed_board_body(user: Seq<char>, new_board: Seq<char>) -> Seq<char> {
    spec_render_body(
        seq![smem("userId"@, JsonVal::Str(user)), smem("newBoardId"@, JsonVal::Str(new_board))],
    )
}

/// The event payload announcing a new active member.
pub struct CreatedActiveMemberEventPayload {
    pub _id: String,
    pub user_id: String,
    pub board_id: String,
}

impl CreatedActiveMemberEventPayload {
    /// Encodes this payload as its wire object.
    pub fn encode(&self) -> (r: String)
        ensures
            r@ == spec_created_member_body(self._id@, self.user_id@, self.board_id@),
    {
        let mut fields: Vec<BodyField> = Vec::new();
        fields.push(BodyField { key: "_id".to_owned(), value: FieldValue::Str(self._id.clone()) });
        fields.push(
            BodyField { key: "userId".to_owned(), value: FieldValue::Str(self.user_id.clone()) },
        );
        fields.push(
            BodyField { key: "boardId".to_owned(), value: FieldValue::Str(self.board_id.clone()) },
        );
        let mut out = String::new();
        render_body_into(&mut out, &fields);
        proof {
            assert(members_view(fields@) =~= seq![
                smem("_id"@, JsonVal::Str(self._id@)),
                smem("userId"@, JsonVal::Str(self.user_id@)),
                smem("boardId"@, JsonVal::Str(self.board_id@)),
            ]);
        }
        out
    }
}

/// The response payload confirming a new active member.
pub struct CreatedActiveMemberMessage {
    pub _id: String,
    pub user_id: String,
    pub board_id: String,
}

impl CreatedActiveMemberMessage {
    /// Encodes this payload as its wire object.
    pub fn encode(&self) -> (r: String)
        ensures
            r@ == spec_created_member_body(self._id@, self.user_id@, self.board_id@),
    {
        let inner = CreatedActiveMemberEventPayload {
            _id: self._id.clone(),
            user_id: self.user_id.clone(),
            board_id: self.board_id.clone(),
        };
        inner.encode()
    }
}

/// The event payload announcing a removed active member.
pub struct RemovedActiveMemberEventPayload {
    pub user_id: String,
}

impl RemovedActiveMemberEventPayload {
    /// Encodes this payload as its wire object.
    pub fn encode(&self) -> (r: String)
        ensures
            r@ == spec_removed_member_body(self.user_id@),
    {
        let mut fields: Vec<BodyField> = Vec::new();
        fields.push(
            BodyField { key: "userId".to_owned(), value: FieldValue::Str(self.user_id.clone()) },
        );
        let mut out = String::new();
        render_body_into(&mut out, &fields);
        proof {
            assert(members_view(fields@) =~= seq![smem("userId"@, JsonVal::Str(self.user_id@))]);
        }
        out
    }
}

/// The response payload confirming a removed active member.
pub struct RemovedActiveMemberMessage {
    pub user_id: String,
}

impl RemovedActiveMemberMessage {
    /// Encodes this payload as its wire object.
    pub fn encode(&self) -> (r: String)
        ensures
            r@ == spec_removed_member_body(self.user_id@),
    {
        let inner = RemovedActiveMemberEventPayload { user_id: self.user_id.clone() };
        inner.encode()
    }
}

/// The event payload announcing a board switch.
pub struct ChangedActiveBoardEventPayload {
    pub user_id: String,
    pub new_board_id: String,
}

/// The response payload confirming a board switch.
pub struct ChangedActiveBoardMessage {
    pub user_id: String,
    pub new_board_id: String,
}

impl ChangedActiveBoardMessage {
    /// Encodes this payload as its wire object.
    pub fn encode(&self) -> (r: String)
        ensures
            r@ == spec_changed_board_body(self.user_id@, self.new_board_id@),
    {
        let mut fields: Vec<BodyField> = Vec::new();
        fields.push(
            BodyField { key: "userId".to_owned(), value: FieldValue::Str(self.user_id.clone()) },
        );
        fields.push(
            BodyField {
                key: "newBoardId".to_owned(),
                value: FieldValue::Str(self.new_board_id.clone()),
            },
        );
        let mut out = String::new();
        render_body_into(&mut out, &fields);
        proof {
            assert(members_view(fields@) =~= seq![
                smem("userId"@, JsonVal::Str(self.user_id@)),
                smem("newBoardId"@, JsonVal::Str(self.new_board_id@)),
            ]);
        }
        out
    }
}

/// The event payload announcing a cursor position.
pub struct UpdatedPositionEventPayload {
    pub user_id: String,
    pub x: i64,
    pub y: i64,
}

impl UpdatedPositionEventPayload {
    /// Encodes this payload as its wire object.
    pub fn encode(&self) -> (r: String)
        ensures
            r@ == spec_position_body(self.user_id@, self.x as int, self.y as int),
    {
        let mut fields: Vec<BodyField> = Vec::new();
        fields.push(
            BodyField { key: "userId".to_owned(), value: FieldValue::Str(self.user_id.clone()) },
        );
        fields.push(BodyField { key: "x".to_owned(), value: FieldValue::Int(self.x) });
        fields.push(BodyField { key: "y".to_owned(), value: FieldValue::Int(self.y) });
        let mut out = String::new();
        render_body_into(&mut out, &fields);
        proof {
            assert(members_view(fields@) =~= seq![
                smem("userId"@, JsonVal::Str(self.user_id@)),
                smem("x"@, JsonVal::Int(self.x as int)),
                smem("y"@, JsonVal::Int(self.y as int)),
            ]);
        }
        out
    }
}

/// The response payload confirming a cursor position.
pub struct UpdatedPositionMessage {
    pub user_id: String,
    pub x: i64,
    pub y: i64,
}

impl UpdatedPositionMessage {
    /// Encodes this payload as its wire object.
    pub fn encode(&self) -> (r: String)
        ensures
            r@ == spec_position_body(self.user_id@, self.x as int, self.y as int),
    {
        let inner = UpdatedPositionEventPayload {
            user_id: self.user_id.clone(),
            x: self.x,
            y: self.y,
        };
        inner.encode()
    }
}

/// A request to join a board as an active member.
pub struct CreateActiveMemberMessage {
    pub user_id: String,
    pub board_id: String,
}

/// How a parsed create active member request relates to the decoded body
/// it came from.
pub open spec fn create_active_member_msg_matches(m: CreateActiveMemberMessage, ms: Seq<crate::json::JsonMember>) -> bool {
    &&& spec_field(ms, "userId"@) == Some(JsonVal::Str(m.user_id@))
    &&& spec_field(ms, "boardId"@) == Some(
        JsonVal::Str(m.board_id@),
    )
}

/// The shapes a create active member body must have.
pub open spec fn create_active_member_fields_ok(ms: Seq<crate::json::JsonMember>) -> bool {
    &&& field_is_str(ms, "userId"@)
    &&& field_is_str(ms, "boardId"@)
}

/// Everything handling one create active member request guarantees, for
/// a store `pre` before and `post` after the call: the exact store
/// effect, response envelope and emissions.
pub open spec fn create_active_member_post(
    m: CreateActiveMemberMessage,
    pre: Store,
    post: Store,
    ctx: ActiveMemberContext,
    r0: Result<ServerMessage, ServerMessage>,
    ems: Seq<Emission>,
) -> bool {
    &&& (post.wf())
    &&& (post.boards == pre.boards)
    &&& (post.elements == pre.elements)
    &&& (post.clients == pre.clients)
    &&& (post.users == pre.users)
    &&& (if has_member_for(pre.active_members@, m.user_id@) {
            &&& r0 is Err
            &&& post.active_members == pre.active_members
            &&& ems.len() == 0
            &&& r0->Err_0.message_type@ == "response_"@ + "createactivemember"@
            &&& r0->Err_0.status@ == "ERROR"@
            &&& r0->Err_0.body@ == "Error during creating active member"@
        } else {
            &&& r0 is Ok
            &&& post.active_members@.len() == pre.active_members@.len() + 1
            &&& (forall|k: int|
                0 <= k < pre.active_members@.len() ==> post.active_members@[k]
                    == pre.active_members@[k])
            &&& post.active_members@.last().user_id == m.user_id
            &&& post.active_members@.last().board_id == m.board_id
            &&& post.active_members@.last().x == 0
            &&& post.active_members@.last().y == 0
            &&& r0->Ok_0.message_type@ == "response_"@ + "createactivemember"@
            &&& r0->Ok_0.status@ == "OK"@
            &&& r0->Ok_0.body@ == spec_created_member_body(
                post.active_members@.last()._id@,
                m.user_id@,
                m.board_id@,
            )
            &&& ems.len() == 1
            &&& emission_reaches(
                ems[0],
                ctx.subjects,
                m.board_id@,
                active_member_event_name(ActiveMemberEventType::Created),
                spec_created_member_body(
                    post.active_members@.last()._id@,
                    m.user_id@,
                    m.board_id@,
                ),
            )
        })
}

impl CreateActiveMemberMessage {
    /// Reads the request fields out of a decoded body.
    pub fn parse(body: &Vec<BodyField>) -> (r: Option<Self>)
        ensures
            match r {
                Some(m) => create_active_member_msg_matches(m, members_view(body@)),
                None => !create_active_member_fields_ok(members_view(body@)),
            },
    {
        let user_id = match get_str(body, "userId") {
            Some(v) => v,
            None => {
                return None;
            },
        };
        let board_id = match get_str(body, "boardId") {
            Some(v) => v,
            None => {
                return None;
            },
        };
        Some(CreateActiveMemberMessage { user_id, board_id })
    }

    /// Joins the board: a fresh presence record at the origin, announced
    /// to the board's subscribers and confirmed. A user who is already an
    /// active member somewhere is rejected and changes nothing.
    pub fn handle(&self, store: &mut Store, context: &ActiveMemberContext) -> (r: (
        Result<ServerMessage, ServerMessage>,
        Vec<Emission>,
    ))
        requires
            old(store).wf(),
            context.subjects.wf(),
        ensures
            create_active_member_post(*self, *old(store), *final(store), *context, r.0, r.1@),
    {
        let id = store.fresh_id();
        let member = ActiveMember {
            _id: id.clone(),
            user_id: self.user_id.clone(),
            board_id: self.board_id.clone(),
            x: 0,
            y: 0,
        };
        if !store.insert_member(member) {
            return (
                Err(
                    ServerMessage::error_response(
                        "createactivemember".to_owned(),
                        "Error during creating active member".to_owned(),
                    ),
                ),
                Vec::new(),
            );
        }
        let payload = CreatedActiveMemberEventPayload {
            _id: id.clone(),
            user_id: self.user_id.clone(),
            board_id: self.board_id.clone(),
        };
        let emission = context.emit_active_member_event(
            self.board_id.as_str(),
            ActiveMemberEvent {
                event_type: ActiveMemberEventType::Created,
                body: payload.encode(),
            },
        );
        let mut emissions: Vec<Emission> = Vec::new();
        emissions.push(emission);
        let response = CreatedActiveMemberMessage {
            _id: id,
            user_id: self.user_id.clone(),
            board_id: self.board_id.clone(),
        };
        (
            Ok(ServerMessage::ok_response("createactivemember".to_owned(), response.encode())),
            emissions,
        )
    }
}

/// A request to leave a board.
pub struct RemoveActiveMemberMessage {
    pub user_id: String,
    pub board_id: String,
}

/// How a parsed remove active member request relates to the decoded body
/// it came from.
pub open spec fn remove_active_member_msg_matches(m: RemoveActiveMemberMessage, ms: Seq<crate::json::JsonMember>) -> bool {
    &&& spec_field(ms, "userId"@) == Some(JsonVal::Str(m.user_id@))
    &&& spec_field(ms, "boardId"@) == Some(
        JsonVal::Str(m.board_id@),
    )
}

/// The shapes a remove active member body must have.
pub open spec fn remove_active_member_fields_ok(ms: Seq<crate::json::JsonMember>) -> bool {
    &&& field_is_str(ms, "userId"@)
    &&& field_is_str(ms, "boardId"@)
}

/// Everything handling one remove active member request guarantees, for
/// a store `pre` before and `post` after the call: the exact store
/// effect, response envelope and emissions.
pub open spec fn remove_active_member_post(
    m: RemoveActiveMemberMessage,
    pre: Store,
    post: Store,
    ctx: ActiveMemberContext,
    r0: Result<ServerMessage, ServerMessage>,
    ems: Seq<Emission>,
) -> bool {
    &&& (post.wf())
    &&& (post.boards == pre.boards)
    &&& (post.elements == pre.elements)
    &&& (post.clients == pre.clients)
    &&& (post.users == pre.users)
    &&& (match spec_find_member(pre.active_members@, m.user_id@) {
            None => {
                &&& r0 is Err
                &&& post.active_members == pre.active_members
                &&& ems.len() == 0
                &&& r0->Err_0.message_type@ == "response_"@ + "removeactivemember"@
                &&& r0->Err_0.status@ == "ERROR"@
                &&& r0->Err_0.body@ == "No Active Member found to delete"@
            },
            Some(j) => {
                &&& post.active_members@ == pre.active_members@.remove(j)
                &&& r0 is Ok
                &&& r0->Ok_0.message_type@ == "response_"@ + "removeactivemember"@
                &&& r0->Ok_0.status@ == "OK"@
                &&& r0->Ok_0.body@ == "1"@
                &&& ems.len() == 1
                &&& emission_reaches(
                    ems[0],
                    ctx.subjects,
                    m.board_id@,
                    active_member_event_name(ActiveMemberEventType::Removed),
                    spec_removed_member_body(m.user_id@),
                )
            },
        })
}

impl RemoveActiveMemberMessage {
    /// Reads the request fields out of a decoded body.
    pub fn parse(body: &Vec<BodyField>) -> (r: Option<Self>)
        ensures
            match r {
                Some(m) => remove_active_member_msg_matches(m, members_view(body@)),
                None => !remove_active_member_fields_ok(members_view(body@)),
            },
    {
        let user_id = match get_str(body, "userId") {
            Some(v) => v,
            None => {
                return None;
            },
        };
        let board_id = match get_str(body, "boardId") {
            Some(v) => v,
            None => {
                return None;
            },
        };
        Some(RemoveActiveMemberMessage { user_id, board_id })
    }

    /// Leaves the board: the user's presence record is deleted, the
    /// departure announced and confirmed with the number of records
    /// deleted. A user with no presence is rejected and changes nothing.
    pub fn handle(&self, store: &mut Store, context: &ActiveMemberContext) -> (r: (
        Result<ServerMessage, ServerMessage>,
        Vec<Emission>,
    ))
        requires
            old(store).wf(),
            context.subjects.wf(),
        ensures
            remove_active_member_post(*self, *old(store), *final(store), *context, r.0, r.1@),
    {
        let j = match store.find_member_by_user(self.user_id.as_str()) {
            Some(j) => j,
            None => {
                proof {
                    assert(spec_find_member(store.active_members@, self.user_id@) is None);
                }
                return (
                    Err(
                        ServerMessage::error_response(
                            "removeactivemember".to_owned(),
                            "No Active Member found to delete".to_owned(),
                        ),
                    ),
                    Vec::new(),
                );
            },
        };
        proof {
            let ghost jj = spec_find_member(store.active_members@, self.user_id@)->Some_0;
            assert(store.active_members@[jj].user_id@ == self.user_id@);
            assert(jj == j) by {
                if jj != j {
                    let ams = store.active_members@;
                    assert(ams[jj].user_id@ != ams[j as int].user_id@);
                }
            }
        }
        store.remove_member_at(j);
        let payload = RemovedActiveMemberEventPayload { user_id: self.user_id.clone() };
        let emission = context.emit_active_member_event(
            self.board_id.as_str(),
            ActiveMemberEvent {
                event_type: ActiveMemberEventType::Removed,
                body: payload.encode(),
            },
        );
        let mut emissions: Vec<Emission> = Vec::new();
        emissions.push(emission);
        (
            Ok(ServerMessage::ok_response("removeactivemember".to_owned(), "1".to_owned())),
            emissions,
        )
    }
}

/// A request to switch a user's presence to another board.
pub struct ChangeActiveBoardMessage {
    pub user_id: String,
    pub new_board_id: String,
}

/// How a parsed change active board request relates to the decoded body
/// it came from.
pub open spec fn change_active_board_msg_matches(m: ChangeActiveBoardMessage, ms: Seq<crate::json::JsonMember>) -> bool {
    &&& spec_field(ms, "userId"@) == Some(JsonVal::Str(m.user_id@))
    &&& spec_field(ms, "newBoardId"@) == Some(
        JsonVal::Str(m.new_board_id@),
    )
}

/// The shapes a change active board body must have.
pub open spec fn change_active_board_fields_ok(ms: Seq<crate::json::JsonMember>) -> bool {
    &&& field_is_str(ms, "userId"@)
    &&& field_is_str(ms, "newBoardId"@)
}

/// Everything handling one change active board request guarantees, for
/// a store `pre` before and `post` after the call: the exact store
/// effect, response envelope and emissions.
pub open spec fn change_active_board_post(
    m: ChangeActiveBoardMessage,
    pre: Store,
    post: Store,
    ctx: ActiveMemberContext,
    r0: Result<ServerMessage, ServerMessage>,
    ems: Seq<Emission>,
) -> bool {
    &&& (post.wf())
    &&& (post.boards == pre.boards)
    &&& (post.elements == pre.elements)
    &&& (post.clients == pre.clients)
    &&& (post.users == pre.users)
    &&& (match spec_find_member(pre.active_members@, m.user_id@) {
            None => {
                &&& r0 is Err
                &&& post.active_members == pre.active_members
                &&& ems.len() == 0
                &&& r0->Err_0.message_type@ == "response_"@ + "changeactiveboard"@
                &&& r0->Err_0.status@ == "ERROR"@
                &&& r0->Err_0.body@ == "Error during fetching of active member"@
            },
            Some(j) => {
                &&& post.active_members@.len() == pre.active_members@.len()
                &&& (forall|k: int|
                    0 <= k < pre.active_members@.len() && k != j ==> post.active_members@[k] == pre.active_members@[k])
                &&& post.active_members@[j]._id == pre.active_members@[j]._id
                &&& post.active_members@[j].user_id == pre.active_members@[j].user_id
                &&& post.active_members@[j].board_id == m.new_board_id
                &&& post.active_members@[j].x == 0
                &&& post.active_members@[j].y == 0
                &&& r0 is Ok
                &&& r0->Ok_0.message_type@ == "response_"@ + "changeactiveboard"@
                &&& r0->Ok_0.status@ == "OK"@
                &&& r0->Ok_0.body@ == spec_changed_board_body(
                    m.user_id@,
                    m.new_board_id@,
                )
                &&& ems.len() == 2
                &&& emission_reaches(
                    ems[0],
                    ctx.subjects,
                    pre.active_members@[j].board_id@,
                    active_member_event_name(ActiveMemberEventType::Removed),
                    spec_removed_member_body(m.user_id@),
                )
                &&& emission_reaches(
                    ems[1],
                    ctx.subjects,
                    m.new_board_id@,
                    active_member_event_name(ActiveMemberEventType::Created),
                    spec_created_member_body(
                        pre.active_members@[j]._id@,
                        m.user_id@,
                        m.new_board_id@,
                    ),
                )
            },
        })
}

impl ChangeActiveBoardMessage {
    /// Reads the request fields out of a decoded body.
    pub fn parse(body: &Vec<BodyField>) -> (r: Option<Self>)
        ensures
            match r {
                Some(m) => change_active_board_msg_matches(m, members_view(body@)),
                None => !change_active_board_fields_ok(members_view(body@)),
            },
    {
        let user_id = match get_str(body, "userId") {
            Some(v) => v,
            None => {
                return None;
            },
        };
        let new_board_id = match get_str(body, "newBoardId") {
            Some(v) => v,
            None => {
                return None;
            },
        };
        Some(ChangeActiveBoardMessage { user_id, new_board_id })
    }

    /// Switches the user's presence to the new board at the origin. The
    /// departure is announced on the old board, the arrival on the new
    /// one, in that order. A user with no presence is rejected and changes
    /// nothing.
    pub fn handle(&self, store: &mut Store, context: &ActiveMemberContext) -> (r: (
        Result<ServerMessage, ServerMessage>,
        Vec<Emission>,
    ))
        requires
            old(store).wf(),
            context.subjects.wf(),
        ensures
            change_active_board_post(*self, *old(store), *final(store), *context, r.0, r.1@),
    {
        let j = match store.find_member_by_user(self.user_id.as_str()) {
            Some(j) => j,
            None => {
                proof {
                    assert(spec_find_member(store.active_members@, self.user_id@) is None);
                }
                return (
                    Err(
                        ServerMessage::error_response(
                            "changeactiveboard".to_owned(),
                            "Error during fetching of active member".to_owned(),
                        ),
                    ),
                    Vec::new(),
                );
            },
        };
        proof {
            let ghost jj = spec_find_member(store.active_members@, self.user_id@)->Some_0;
            assert(store.active_members@[jj].user_id@ == self.user_id@);
            assert(jj == j) by {
                if jj != j {
                    let ams = store.active_members@;
                    assert(ams[jj].user_id@ != ams[j as int].user_id@);
                }
            }
        }
        let old_board = store.active_members[j].board_id.clone();
        let member_id = store.active_members[j]._id.clone();
        let mut moved = store.active_members[j].duplicate();
        moved.board_id = self.new_board_id.clone();
        moved.x = 0;
        moved.y = 0;
        store.replace_member_at(j, moved);
        let removed_payload = RemovedActiveMemberEventPayload { user_id: self.user_id.clone() };
        let removed = context.emit_active_member_event(
            old_board.as_str(),
            ActiveMemberEvent {
                event_type: ActiveMemberEventType::Removed,
                body: removed_payload.encode(),
            },
        );
        let created_payload = CreatedActiveMemberEventPayload {
            _id: member_id,
            user_id: self.user_id.clone(),
            board_id: self.new_board_id.clone(),
        };
        let created = context.emit_active_member_event(
            self.new_board_id.as_str(),
            ActiveMemberEvent {
                event_type: ActiveMemberEventType::Created,
                body: created_payload.encode(),
            },
        );
        let mut emissions: Vec<Emission> = Vec::new();
        emissions.push(removed);
        emissions.push(created);
        let response = ChangedActiveBoardMessage {
            user_id: self.user_id.clone(),
            new_board_id: self.new_board_id.clone(),
        };
        (
            Ok(ServerMessage::ok_response("changeactiveboard".to_owned(), response.encode())),
            emissions,
        )
    }
}

/// A request to move a user's cursor.
pub struct UpdatePositionMessage {
    pub user_id: String,
    pub board_id: String,
    pub x: i64,
    pub y: i64,
}

/// How a parsed update position request relates to the decoded body
/// it came from.
pub open spec fn update_position_msg_matches(m: UpdatePositionMessage, ms: Seq<crate::json::JsonMember>) -> bool {
    &&& spec_field(ms, "userId"@) == Some(JsonVal::Str(m.user_id@))
    &&& spec_field(ms, "boardId"@) == Some(
        JsonVal::Str(m.board_id@),
    )
    &&& spec_field(ms, "x"@) == Some(JsonVal::Int(m.x as int))
    &&& spec_field(ms, "y"@) == Some(JsonVal::Int(m.y as int))
}

/// The shapes a update position body must have.
pub open spec fn update_position_fields_ok(ms: Seq<crate::json::JsonMember>) -> bool {
    &&& field_is_str(ms, "userId"@)
    &&& field_is_str(ms, "boardId"@)
    &&& crate::fields::field_is_int(ms, "x"@)
    &&& crate::fields::field_is_int(ms, "y"@)
}

/// Everything handling one update position request guarantees, for
/// a store `pre` before and `post` after the call: the exact store
/// effect, response envelope and emissions.
pub open spec fn update_position_post(
    m: UpdatePositionMessage,
    pre: Store,
    post: Store,
    ctx: ActiveMemberContext,
    r0: Result<ServerMessage, ServerMessage>,
    ems: Seq<Emission>,
) -> bool {
    &&& (post.wf())
    &&& (post.boards == pre.boards)
    &&& (post.elements == pre.elements)
    &&& (post.clients == pre.clients)
    &&& (post.users == pre.users)
    &&& (match spec_find_member(pre.active_members@, m.user_id@) {
            None => {
                &&& r0 is Err
                &&& post.active_members == pre.active_members
                &&& ems.len() == 0
                &&& r0->Err_0.message_type@ == "response_"@ + "updateposition"@
                &&& r0->Err_0.status@ == "ERROR"@
                &&& r0->Err_0.body@ == "No active member found to update"@
            },
            Some(j) => {
                &&& post.active_members@.len() == pre.active_members@.len()
                &&& (forall|k: int|
                    0 <= k < pre.active_members@.len() && k != j ==> post.active_members@[k] == pre.active_members@[k])
                &&& post.active_members@[j]._id == pre.active_members@[j]._id
                &&& post.active_members@[j].user_id == pre.active_members@[j].user_id
                &&& post.active_members@[j].board_id == pre.active_members@[j].board_id
                &&& post.active_members@[j].x == m.x
                &&& post.active_members@[j].y == m.y
                &&& r0 is Ok
                &&& r0->Ok_0.message_type@ == "response_"@ + "updateposition"@
                &&& r0->Ok_0.status@ == "OK"@
                &&& r0->Ok_0.body@ == spec_position_body(m.user_id@, m.x as int,
                    m.y as int)
                &&& ems.len() == 1
                &&& emission_reaches(
                    ems[0],
                    ctx.subjects,
                    m.board_id@,
                    active_member_event_name(ActiveMemberEventType::PositionUpdated),
                    spec_position_body(m.user_id@, m.x as int, m.y as int),
                )
            },
        })
}

impl UpdatePositionMessage {
    /// Reads the request fields out of a decoded body.
    pub fn parse(body: &Vec<BodyField>) -> (r: Option<Self>)
        ensures
            match r {
                Some(m) => update_position_msg_matches(m, members_view(body@)),
                None => !update_position_fields_ok(members_view(body@)),
            },
    {
        let user_id = match get_str(body, "userId") {
            Some(v) => v,
            None => {
                return None;
            },
        };
        let board_id = match get_str(body, "boardId") {
            Some(v) => v,
            None => {
                return None;
            },
        };
        let x = match crate::fields::get_int(body, "x") {
            Some(v) => v,
            None => {
                return None;
            },
        };
        let y = match crate::fields::get_int(body, "y") {
            Some(v) => v,
            None => {
                return None;
            },
        };
        Some(UpdatePositionMessage { user_id, board_id, x, y })
    }

    /// Moves the user's cursor to the given position, announces it on the
    /// board and confirms it. A user with no presence is rejected and
    /// changes nothing.
    pub fn handle(&self, store: &mut Store, context: &ActiveMemberContext) -> (r: (
        Result<ServerMessage, ServerMessage>,
        Vec<Emission>,
    ))
        requires
            old(store).wf(),
            context.subjects.wf(),
        ensures
            update_position_post(*self, *old(store), *final(store), *context, r.0, r.1@),
    {
        let j = match store.find_member_by_user(self.user_id.as_str()) {
            Some(j) => j,
            None => {
                proof {
                    assert(spec_find_member(store.active_members@, self.user_id@) is None);
                }
                return (
                    Err(
                        ServerMessage::error_response(
                            "updateposition".to_owned(),
                            "No active member found to update".to_owned(),
                        ),
                    ),
                    Vec::new(),
                );
            },
        };
        proof {
            let ghost jj = spec_find_member(store.active_members@, self.user_id@)->Some_0;
            assert(store.active_members@[jj].user_id@ == self.user_id@);
            assert(jj == j) by {
                if jj != j {
                    let ams = store.active_members@;
                    assert(ams[jj].user_id@ != ams[j as int].user_id@);
                }
            }
        }
        let mut moved = store.active_members[j].duplicate();
        moved.x = self.x;
        moved.y = self.y;
        store.replace_member_at(j, moved);
        let payload = UpdatedPositionEventPayload {
            user_id: self.user_id.clone(),
            x: self.x,
            y: self.y,
        };
        let emission = context.emit_active_member_event(
            self.board_id.as_str(),
            ActiveMemberEvent {
                event_type: ActiveMemberEventType::PositionUpdated,
                body: payload.encode(),
            },
        );
        let mut emissions: Vec<Emission> = Vec::new();
        emissions.push(emission);
        let response = UpdatedPositionMessage {
            user_id: self.user_id.clone(),
            x: self.x,
            y: self.y,
        };
        (
            Ok(ServerMessage::ok_response("updateposition".to_owned(), response.encode())),
            emissions,
        )
    }
}

} // verus!
