//! The board request handlers: adding and removing allowed members.

use vstd::prelude::*;
use crate::context::BoardContext;
use crate::context::BoardEvent;
use crate::context::BoardEventType;
use crate::context::board_event_name;
use crate::element_msgs::emission_reaches;
use crate::fields::field_is_str;
use crate::fields::get_str;
use crate::fields::spec_field;
use crate::hub::Emission;
use crate::json::BodyField;
use crate::json::FieldValue;
use crate::json::JsonVal;
use crate::json::members_view;
use crate::json::render_body_into;
use crate::json::smem;
use crate::json::spec_render_body;
use crate::records::Board;
use crate::server_msg::ErrorResponseBody;
use crate::server_msg::ServerMessage;
use crate::server_msg::spec_err_body;
use crate::store::Store;
use crate::store::has_board;
use crate::store::has_user;
use crate::util::seq_contains_str;
use crate::util::str_eq;
use crate::util::string_vec_contains;

verus! {

/// The index of the board with this id, if stored.
pub open spec fn spec_find_board(s: Seq<Board>, id: Seq<char>) -> Option<int> {
    if has_board(s, id) {
        Some(choose|i: int| 0 <= i < s.len() && s[i]._id@ == id)
    } else {
        None
    }
}

/// A body carrying one user id.
pub open spec fn spec_user_body(user: Seq<char>) -> Seq<char> {
    spec_render_body(seq![smem("userId"@, JsonVal::Str(user))])
}

/// The event payload announcing a new member.
pub struct MemberAddedEventPayload {
    pub user_id: String,
}

impl MemberAddedEventPayload {
    /// Encodes this payload as its wire object.
    pub fn encode(&self) -> (r: String)
        ensures
            r@ == spec_user_body(self.user_id@),
    {
        let mut fields: Vec<BodyField> = Vec::new();
        fields.push(
            BodyField { key: "userId".to_owned(), value: FieldValue::Str(self.user_id.clone()) },
        );
        let mut out = String::new();
        render_body_into(&mut out, &fields);
        proof {
            assert(members_view(fields@) =~= seq![smem("userId"@, JsonVal::Str(self.user_id@))]);
        }
        out
    }
}

/// The event payload announcing a removed member.
pub struct MemberRemovedEventPayload {
    pub user_id: String,
}

impl MemberRemovedEventPayload {
    /// Encodes this payload as its wire object.
    pub fn encode(&self) -> (r: String)
        ensures
            r@ == spec_user_body(self.user_id@),
    {
        let inner = MemberAddedEventPayload { user_id: self.user_id.clone() };
        inner.encode()
    }
}

/// The response payload confirming an added member.
pub struct MemberAddedMessage {
    pub user_id: String,
}

impl MemberAddedMessage {
    /// Encodes this payload as its wire object.
    pub fn encode(&self) -> (r: String)
        ensures
            r@ == spec_user_body(self.user_id@),
    {
        let inner = MemberAddedEventPayload { user_id: self.user_id.clone() };
        inner.encode()
    }
}

/// The response payload confirming a removed member.
pub struct MemberRemovedMessage {
    pub user_id: String,
}

impl MemberRemovedMessage {
    /// Encodes this payload as its wire object.
    pub fn encode(&self) -> (r: String)
        ensures
            r@ == spec_user_body(self.user_id@),
    {
        let inner = MemberAddedEventPayload { user_id: self.user_id.clone() };
        inner.encode()
    }
}

/// A request to allow a user onto a board.
pub struct MemberAddMessage {
    pub user_id: String,
    pub board_id: String,
}

/// How a parsed member add request relates to the decoded body
/// it came from.
pub open spec fn member_add_msg_matches(m: MemberAddMessage, ms: Seq<crate::json::JsonMember>) -> bool {
    &&& spec_field(ms, "userId"@) == Some(JsonVal::Str(m.user_id@))
    &&& spec_field(ms, "boardId"@) == Some(
        JsonVal::Str(m.board_id@),
    )
}

/// The shapes a member add body must have.
pub open spec fn member_add_fields_ok(ms: Seq<crate::json::JsonMember>) -> bool {
    &&& field_is_str(ms, "userId"@)
    &&& field_is_str(ms, "boardId"@)
}

/// Everything handling one member add request guarantees, for
/// a store `pre` before and `post` after the call: the exact store
/// effect, response envelope and emissions.
pub open spec fn member_add_post(
    m: MemberAddMessage,
    pre: Store,
    post: Store,
    ctx: BoardContext,
    r0: Result<ServerMessage, ServerMessage>,
    ems: Seq<Emission>,
) -> bool {
    &&& (post.wf())
    &&& (post.elements == pre.elements)
    &&& (post.clients == pre.clients)
    &&& (post.users == pre.users)
    &&& (post.active_members == pre.active_members)
    &&& (match spec_find_board(pre.boards@, m.board_id@) {
            None => {
                &&& r0 is Err
                &&& post.boards == pre.boards
                &&& ems.len() == 0
                &&& r0->Err_0.message_type@ == "response_"@ + "memberadd"@
                &&& r0->Err_0.status@ == "ERROR"@
                &&& r0->Err_0.body@ == spec_err_body(
                    "Error during Current Active Member check"@,
                    m.user_id@,
                )
            },
            Some(j) => if seq_contains_str(
                pre.boards@[j].allowed_members@,
                m.user_id@,
            ) {
                &&& r0 is Err
                &&& post.boards == pre.boards
                &&& ems.len() == 0
                &&& r0->Err_0.body@ == spec_err_body(
                    "Member already part of this board"@,
                    m.user_id@,
                )
            } else if !has_user(pre.users@, m.user_id@) {
                &&& r0 is Err
                &&& post.boards == pre.boards
                &&& ems.len() == 0
                &&& r0->Err_0.body@ == spec_err_body("No User found with that ID"@, m.user_id@)
            } else {
                &&& r0 is Ok
                &&& post.boards@.len() == pre.boards@.len()
                &&& post.boards@[j]._id == pre.boards@[j]._id
                &&& post.boards@[j].name == pre.boards@[j].name
                &&& post.boards@[j].host == pre.boards@[j].host
                &&& post.boards@[j].allowed_members@ == pre.boards@[j].allowed_members@.push(m.user_id)
                &&& (forall|k: int|
                    0 <= k < pre.boards@.len() && k != j ==> post.boards@[k]
                        == pre.boards@[k])
                &&& r0->Ok_0.message_type@ == "response_"@ + "memberadd"@
                &&& r0->Ok_0.status@ == "OK"@
                &&& r0->Ok_0.body@ == spec_user_body(m.user_id@)
                &&& ems.len() == 1
                &&& emission_reaches(
                    ems[0],
                    ctx.subjects,
                    m.board_id@,
                    board_event_name(BoardEventType::MemberAdded),
                    spec_user_body(m.user_id@),
                )
            },
        })
}

impl MemberAddMessage {
    /// Reads the request fields out of a decoded body.
    pub fn parse(body: &Vec<BodyField>) -> (r: Option<Self>)
        ensures
            match r {
                Some(m) => member_add_msg_matches(m, members_view(body@)),
                None => !member_add_fields_ok(members_view(body@)),
            },
    {
        let user_id = match get_str(body, "userId") {
            Some(v) => v,
            None => {
                return None;
            },
        };
        let board_id = match get_str(body, "boardId") {
            Some(v) => v,
            None => {
                return None;
            },
        };
        Some(MemberAddMessage { user_id, board_id })
    }

    /// Adds the user to the board's allowed members. A user already on the
    /// board, an unknown user, or an unknown board is rejected and changes
    /// nothing; on success the new member is appended, announced to the
    /// board's subscribers and confirmed.
    pub fn handle(&self, store: &mut Store, context: &BoardContext) -> (r: (
        Result<ServerMessage, ServerMessage>,
        Vec<Emission>,
    ))
        requires
            old(store).wf(),
            context.subjects.wf(),
        ensures
            member_add_post(*self, *old(store), *final(store), *context, r.0, r.1@),
    {
        let j = match store.find_board(self.board_id.as_str()) {
            Some(j) => j,
            None => {
                proof {
                    assert(spec_find_board(store.boards@, self.board_id@) is None);
                }
                let err = ErrorResponseBody {
                    message: "Error during Current Active Member check".to_owned(),
                    body: self.user_id.clone(),
                };
                return (
                    Err(ServerMessage::error_response("memberadd".to_owned(), err.encode())),
                    Vec::new(),
                );
            },
        };
        proof {
            let ghost jj = spec_find_board(store.boards@, self.board_id@)->Some_0;
            assert(store.boards@[jj]._id@ == self.board_id@);
            assert(jj == j) by {
                if jj != j {
                    assert(store.boards@[jj]._id@ != store.boards@[j as int]._id@);
                }
            }
        }
        if string_vec_contains(&store.boards[j].allowed_members, self.user_id.as_str()) {
            let err = ErrorResponseBody {
                message: "Member already part of this board".to_owned(),
                body: self.user_id.clone(),
            };
            return (
                Err(ServerMessage::error_response("memberadd".to_owned(), err.encode())),
                Vec::new(),
            );
        }
        if store.find_user(self.user_id.as_str()).is_none() {
            let err = ErrorResponseBody {
                message: "No User found with that ID".to_owned(),
                body: self.user_id.clone(),
            };
            return (
                Err(ServerMessage::error_response("memberadd".to_owned(), err.encode())),
                Vec::new(),
            );
        }
        let mut grown = store.boards[j].duplicate();
        grown.allowed_members.push(self.user_id.clone());
        proof {
            let b = store.boards@[j as int];
            assert(b.wf());
            let hi = choose|i: int|
                0 <= i < b.allowed_members@.len() && b.allowed_members@[i]@ == b.host@;
            assert(grown.allowed_members@[hi]@ == grown.host@);
            assert(grown.wf());
        }
        store.replace_board_at(j, grown);
        let payload = MemberAddedEventPayload { user_id: self.user_id.clone() };
        let emission = match context.emit_board_event(
            store,
            self.board_id.as_str(),
            BoardEvent { event_type: BoardEventType::MemberAdded, body: payload.encode() },
        ) {
            Some(em) => em,
            None => {
                proof {
                    assert(store.boards@[j as int]._id@ == self.board_id@);
                    assert(has_board(store.boards@, self.board_id@));
                }
                vstd::pervasive::unreached()
            },
        };
        let mut emissions: Vec<Emission> = Vec::new();
        emissions.push(emission);
        let response = MemberAddedMessage { user_id: self.user_id.clone() };
        (Ok(ServerMessage::ok_response("memberadd".to_owned(), response.encode())), emissions)
    }
}

/// A request to remove a user from a board's allowed members.
pub struct MemberRemoveMessage {
    pub user_id: String,
    pub board_id: String,
}

/// How a parsed member remove request relates to the decoded body
/// it came from.
pub open spec fn member_remove_msg_matches(m: MemberRemoveMessage, ms: Seq<crate::json::JsonMember>) -> bool {
    &&& spec_field(ms, "userId"@) == Some(JsonVal::Str(m.user_id@))
    &&& spec_field(ms, "boardId"@) == Some(
        JsonVal::Str(m.board_id@),
    )
}

/// The shapes a member remove body must have.
pub open spec fn member_remove_fields_ok(ms: Seq<crate::json::JsonMember>) -> bool {
    &&& field_is_str(ms, "userId"@)
    &&& field_is_str(ms, "boardId"@)
}

/// Everything handling one member remove request guarantees, for
/// a store `pre` before and `post` after the call: the exact store
/// effect, response envelope and emissions.
pub open spec fn member_remove_post(
    m: MemberRemoveMessage,
    pre: Store,
    post: Store,
    ctx: BoardContext,
    r0: Result<ServerMessage, ServerMessage>,
    ems: Seq<Emission>,
) -> bool {
    &&& (post.wf())
    &&& (post.elements == pre.elements)
    &&& (post.clients == pre.clients)
    &&& (post.users == pre.users)
    &&& (post.active_members == pre.active_members)
    &&& (match spec_find_board(pre.boards@, m.board_id@) {
            None => {
                &&& r0 is Err
                &&& post.boards == pre.boards
                &&& ems.len() == 0
                &&& r0->Err_0.body@ == spec_err_body(
                    "Error during Current Active Member check"@,
                    m.user_id@,
                )
            },
            Some(j) => if !seq_contains_str(
                pre.boards@[j].allowed_members@,
                m.user_id@,
            ) {
                &&& r0 is Err
                &&& post.boards == pre.boards
                &&& ems.len() == 0
                &&& r0->Err_0.body@ == spec_err_body(
                    "Member not part of this board"@,
                    m.user_id@,
                )
            } else if pre.boards@[j].host@ == m.user_id@ {
                &&& r0 is Err
                &&& post.boards == pre.boards
                &&& ems.len() == 0
                &&& r0->Err_0.body@ == spec_err_body(
                    "Board host cannot be removed"@,
                    m.user_id@,
                )
            } else {
                &&& r0 is Ok
                &&& post.boards@.len() == pre.boards@.len()
                &&& post.boards@[j]._id == pre.boards@[j]._id
                &&& post.boards@[j].name == pre.boards@[j].name
                &&& post.boards@[j].host == pre.boards@[j].host
                &&& ({
                    let before = pre.boards@[j].allowed_members@;
                    let after = post.boards@[j].allowed_members@;
                    exists|p: int|
                        0 <= p < before.len() && before[p]@ == m.user_id@ && after
                            == before.remove(p)
                })
                &&& (forall|k: int|
                    0 <= k < pre.boards@.len() && k != j ==> post.boards@[k]
                        == pre.boards@[k])
                &&& r0->Ok_0.message_type@ == "response_"@ + "memberremove"@
                &&& r0->Ok_0.status@ == "OK"@
                &&& r0->Ok_0.body@ == spec_user_body(m.user_id@)
                &&& ems.len() == 1
                &&& emission_reaches(
                    ems[0],
                    ctx.subjects,
                    m.board_id@,
                    board_event_name(BoardEventType::MemberRemoved),
                    spec_user_body(m.user_id@),
                )
            },
        })
}

impl MemberRemoveMessage {
    /// Reads the request fields out of a decoded body.
    pub fn parse(body: &Vec<BodyField>) -> (r: Option<Self>)
        ensures
            match r {
                Some(m) => member_remove_msg_matches(m, members_view(body@)),
                None => !member_remove_fields_ok(members_view(body@)),
            },
    {
        let user_id = match get_str(body, "userId") {
            Some(v) => v,
            None => {
                return None;
            },
        };
        let board_id = match get_str(body, "boardId") {
            Some(v) => v,
            None => {
                return None;
            },
        };
        Some(MemberRemoveMessage { user_id, board_id })
    }

    /// Removes the user from the board's allowed members. A user not on
    /// the board or an unknown board is rejected; the host is never
    /// removed, keeping the board's host always a member. On success the
    /// first occurrence of the user leaves the list, the removal is
    /// announced to the board's subscribers and confirmed.
    pub fn handle(&self, store: &mut Store, context: &BoardContext) -> (r: (
        Result<ServerMessage, ServerMessage>,
        Vec<Emission>,
    ))
        requires
            old(store).wf(),
            context.subjects.wf(),
        ensures
            member_remove_post(*self, *old(store), *final(store), *context, r.0, r.1@),
    {
        let j = match store.find_board(self.board_id.as_str()) {
            Some(j) => j,
            None => {
                proof {
                    assert(spec_find_board(store.boards@, self.board_id@) is None);
                }
                let err = ErrorResponseBody {
                    message: "Error during Current Active Member check".to_owned(),
                    body: self.user_id.clone(),
                };
                return (
                    Err(ServerMessage::error_response("memberremove".to_owned(), err.encode())),
                    Vec::new(),
                );
            },
        };
        proof {
            let ghost jj = spec_find_board(store.boards@, self.board_id@)->Some_0;
            assert(store.boards@[jj]._id@ == self.board_id@);
            assert(jj == j) by {
                if jj != j {
                    assert(store.boards@[jj]._id@ != store.boards@[j as int]._id@);
                }
            }
        }
        if !string_vec_contains(&store.boards[j].allowed_members, self.user_id.as_str()) {
            let err = ErrorResponseBody {
                message: "Member not part of this board".to_owned(),
                body: self.user_id.clone(),
            };
            return (
                Err(ServerMessage::error_response("memberremove".to_owned(), err.encode())),
                Vec::new(),
            );
        }
        if str_eq(store.boards[j].host.as_str(), self.user_id.as_str()) {
            let err = ErrorResponseBody {
                message: "Board host cannot be removed".to_owned(),
                body: self.user_id.clone(),
            };
            return (
                Err(ServerMessage::error_response("memberremove".to_owned(), err.encode())),
                Vec::new(),
            );
        }
        // Find the first occurrence and rebuild the member list without it.
        let board = &store.boards[j];
        let p = match crate::util::index_of_str(&board.allowed_members, self.user_id.as_str()) {
            Some(p) => p,
            None => vstd::pervasive::unreached(),
        };
        let mut shrunk = board.duplicate();
        shrunk.allowed_members.remove(p);
        proof {
            let b = store.boards@[j as int];
            assert(b.wf());
            let hi = choose|i: int|
                0 <= i < b.allowed_members@.len() && b.allowed_members@[i]@ == b.host@;
            assert(b.allowed_members@[hi]@ != self.user_id@);
            assert(hi != p);
            if hi < p {
                assert(shrunk.allowed_members@[hi]@ == b.allowed_members@[hi]@);
            } else {
                assert(shrunk.allowed_members@[hi - 1]@ == b.allowed_members@[hi]@);
            }
            assert(shrunk.wf());
        }
        store.replace_board_at(j, shrunk);
        let payload = MemberRemovedEventPayload { user_id: self.user_id.clone() };
        let emission = match context.emit_board_event(
            store,
            self.board_id.as_str(),
            BoardEvent { event_type: BoardEventType::MemberRemoved, body: payload.encode() },
        ) {
            Some(em) => em,
            None => {
                proof {
                    assert(store.boards@[j as int]._id@ == self.board_id@);
                    assert(has_board(store.boards@, self.board_id@));
                }
                vstd::pervasive::unreached()
            },
        };
        let mut emissions: Vec<Emission> = Vec::new();
        emissions.push(emission);
        let response = MemberRemovedMessage { user_id: self.user_id.clone() };
        (Ok(ServerMessage::ok_response("memberremove".to_owned(), response.encode())), emissions)
    }
}

} // verus!
