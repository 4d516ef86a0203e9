//! The message dispatcher: a request's message type names a category and a
//! subcategory; the category picks the domain, the subcategory the
//! handler, and an unrecognized or malformed type yields a deterministic
//! error envelope, never a crash.

use vstd::prelude::*;
use crate::active_member_msgs::ChangeActiveBoardMessage;
use crate::active_member_msgs::CreateActiveMemberMessage;
use crate::active_member_msgs::RemoveActiveMemberMessage;
use crate::active_member_msgs::UpdatePositionMessage;
use crate::board_msgs::MemberAddMessage;
use crate::board_msgs::MemberRemoveMessage;
use crate::category::WebTransportMessageMainCategory;
use crate::context::ActiveMemberContext;
use crate::context::BoardContext;
use crate::context::ElementContext;
use crate::element_msgs::CreateElementMessage;
use crate::element_msgs::LockElementMessage;
use crate::element_msgs::LockElementsMessage;
use crate::element_msgs::MoveElementsMessage;
use crate::element_msgs::RemoveElementMessage;
use crate::element_msgs::UnlockElementMessage;
use crate::element_msgs::UnlockElementsMessage;
use crate::element_msgs::UpdateElementMessage;
use crate::hub::Emission;
use crate::json::BodyField;
use crate::server_msg::ServerMessage;
use crate::store::Store;
use crate::util::str_eq;
use crate::wire::ClientFrame;
use crate::wire::split_message_type;

verus! {

/// A rejection that touches nothing: the store as it was, no emissions,
/// and the exact error envelope.
pub open spec fn reply_rejected(
    pre: Store,
    post: Store,
    r0: Result<ServerMessage, ServerMessage>,
    ems: Seq<Emission>,
    mt: Seq<char>,
    body: Seq<char>,
) -> bool {
    &&& post == pre
    &&& ems.len() == 0
    &&& r0 is Err
    &&& r0->Err_0.message_type@ == "response_"@ + mt
    &&& r0->Err_0.status@ == "ERROR"@
    &&& r0->Err_0.body@ == body
}

/// What routing one board request guarantees, per subcategory: a
/// well-shaped body reaches exactly the matching handler and the result
/// is that handler's; an ill-shaped body or an unknown subcategory is
/// rejected with its exact envelope and nothing changes.
pub open spec fn board_route_post(
    sub: Seq<char>,
    ms: Seq<crate::json::JsonMember>,
    pre: Store,
    post: Store,
    ctx: BoardContext,
    r0: Result<ServerMessage, ServerMessage>,
    ems: Seq<Emission>,
) -> bool {
    if sub == "memberadd"@ {
        if crate::board_msgs::member_add_fields_ok(ms) {
            exists|m: MemberAddMessage|
                #[trigger] crate::board_msgs::member_add_msg_matches(m, ms)
                    && crate::board_msgs::member_add_post(m, pre, post, ctx, r0, ems)
        } else {
            reply_rejected(pre, post, r0, ems, "memberadd"@, "Member Add Message is invalid"@)
        }
    } else if sub == "memberremove"@ {
        if crate::board_msgs::member_remove_fields_ok(ms) {
            exists|m: MemberRemoveMessage|
                #[trigger] crate::board_msgs::member_remove_msg_matches(m, ms)
                    && crate::board_msgs::member_remove_post(m, pre, post, ctx, r0, ems)
        } else {
            reply_rejected(
                pre,
                post,
                r0,
                ems,
                "memberremove"@,
                "Member Remove Message is invalid"@,
            )
        }
    } else {
        reply_rejected(
            pre,
            post,
            r0,
            ems,
            "unknownboardcategory"@,
            "Board has no such subcategory"@,
        )
    }
}

/// What routing one element request guarantees, per subcategory, in the
/// same shape.
pub open spec fn element_route_post(
    sub: Seq<char>,
    ms: Seq<crate::json::JsonMember>,
    pre: Store,
    post: Store,
    ctx: ElementContext,
    r0: Result<ServerMessage, ServerMessage>,
    ems: Seq<Emission>,
) -> bool {
    if sub == "createelement"@ {
        if crate::element_msgs::create_fields_ok(ms) {
            exists|m: CreateElementMessage|
                #[trigger] crate::element_msgs::create_element_msg_matches(m, ms)
                    && crate::element_msgs::create_element_post(m, pre, post, ctx, r0, ems)
        } else {
            reply_rejected(
                pre,
                post,
                r0,
                ems,
                "createelement"@,
                "Create Element Message is invalid"@,
            )
        }
    } else if sub == "removeelement"@ {
        if crate::element_msgs::remove_element_fields_ok(ms) {
            exists|m: RemoveElementMessage|
                #[trigger] crate::element_msgs::remove_element_msg_matches(m, ms)
                    && crate::element_msgs::remove_element_post(m, pre, post, ctx, r0, ems)
        } else {
            reply_rejected(
                pre,
                post,
                r0,
                ems,
                "removeelement"@,
                "Remove Element Message is invalid"@,
            )
        }
    } else if sub == "lockelement"@ {
        if crate::element_msgs::lock_element_fields_ok(ms) {
            exists|m: LockElementMessage|
                #[trigger] crate::element_msgs::lock_element_msg_matches(m, ms)
                    && crate::element_msgs::lock_element_post(m, pre, post, ctx, r0, ems)
        } else {
            reply_rejected(pre, post, r0, ems, "lockelement"@, "Lock Element Message is invalid"@)
        }
    } else if sub == "unlockelement"@ {
        if crate::element_msgs::unlock_element_fields_ok(ms) {
            exists|m: UnlockElementMessage|
                #[trigger] crate::element_msgs::unlock_element_msg_matches(m, ms)
                    && crate::element_msgs::unlock_element_post(m, pre, post, ctx, r0, ems)
        } else {
            reply_rejected(
                pre,
                post,
                r0,
                ems,
                "unlockelement"@,
                "Unlock Element Message is invalid"@,
            )
        }
    } else if sub == "lockelements"@ {
        if crate::element_msgs::lock_elements_fields_ok(ms) {
            exists|m: LockElementsMessage|
                #[trigger] crate::element_msgs::lock_elements_msg_matches(m, ms)
                    && crate::element_msgs::lock_elements_post(m, pre, post, ctx, r0, ems)
        } else {
            reply_rejected(
                pre,
                post,
                r0,
                ems,
                "lockelements"@,
                "Lock Elements Message is invalid"@,
            )
        }
    } else if sub == "unlockelements"@ {
        if crate::element_msgs::unlock_elements_fields_ok(ms) {
            exists|m: UnlockElementsMessage|
                #[trigger] crate::element_msgs::unlock_elements_msg_matches(m, ms)
                    && crate::element_msgs::unlock_elements_post(m, pre, post, ctx, r0, ems)
        } else {
            reply_rejected(
                pre,
                post,
                r0,
                ems,
                "unlockelements"@,
                "Unlock Elements Message is invalid"@,
            )
        }
    } else if sub == "updateelement"@ {
        if crate::element_msgs::update_fields_ok(ms) {
            exists|m: UpdateElementMessage|
                #[trigger] crate::element_msgs::update_element_msg_matches(m, ms)
                    && crate::element_msgs::update_element_post(m, pre, post, ctx, r0, ems)
        } else {
            reply_rejected(
                pre,
                post,
                r0,
                ems,
                "updateelement"@,
                "Update Element Message is invalid"@,
            )
        }
    } else if sub == "moveelements"@ {
        if crate::element_msgs::move_elements_fields_ok(ms) {
            exists|m: MoveElementsMessage|
                #[trigger] crate::element_msgs::move_elements_msg_matches(m, ms)
                    && crate::element_msgs::move_elements_post(m, pre, post, ctx, r0, ems)
        } else {
            reply_rejected(
                pre,
                post,
                r0,
                ems,
                "moveelements"@,
                "Move Elements Message is invalid"@,
            )
        }
    } else {
        reply_rejected(
            pre,
            post,
            r0,
            ems,
            "unknownelementcategory"@,
            "Element has no such subcategory"@,
        )
    }
}

/// What routing one active-member request guarantees, per subcategory,
/// in the same shape.
pub open spec fn active_member_route_post(
    sub: Seq<char>,
    ms: Seq<crate::json::JsonMember>,
    pre: Store,
    post: Store,
    ctx: ActiveMemberContext,
    r0: Result<ServerMessage, ServerMessage>,
    ems: Seq<Emission>,
) -> bool {
    if sub == "createactivemember"@ {
        if crate::active_member_msgs::create_active_member_fields_ok(ms) {
            exists|m: CreateActiveMemberMessage|
                #[trigger] crate::active_member_msgs::create_active_member_msg_matches(m, ms)
                    && crate::active_member_msgs::create_active_member_post(m, pre, post, ctx, r0, ems)
        } else {
            reply_rejected(
                pre,
                post,
                r0,
                ems,
                "createactivemember"@,
                "Create Active Member Message is invalid"@,
            )
        }
    } else if sub == "removeactivemember"@ {
        if crate::active_member_msgs::remove_active_member_fields_ok(ms) {
            exists|m: RemoveActiveMemberMessage|
                #[trigger] crate::active_member_msgs::remove_active_member_msg_matches(m, ms)
                    && crate::active_member_msgs::remove_active_member_post(m, pre, post, ctx, r0, ems)
        } else {
            reply_rejected(
                pre,
                post,
                r0,
                ems,
                "removeactivemember"@,
                "Remove Active Member Message is invalid"@,
            )
        }
    } else if sub == "changeactiveboard"@ {
        if crate::active_member_msgs::change_active_board_fields_ok(ms) {
            exists|m: ChangeActiveBoardMessage|
                #[trigger] crate::active_member_msgs::change_active_board_msg_matches(m, ms)
                    && crate::active_member_msgs::change_active_board_post(m, pre, post, ctx, r0, ems)
        } else {
            reply_rejected(
                pre,
                post,
                r0,
                ems,
                "changeactiveboard"@,
                "Change Active Board Message is invalid"@,
            )
        }
    } else if sub == "updateposition"@ {
        if crate::active_member_msgs::update_position_fields_ok(ms) {
            exists|m: UpdatePositionMessage|
                #[trigger] crate::active_member_msgs::update_position_msg_matches(m, ms)
                    && crate::active_member_msgs::update_position_post(m, pre, post, ctx, r0, ems)
        } else {
            reply_rejected(
                pre,
                post,
                r0,
                ems,
                "updateposition"@,
                "Update Position Message is invalid"@,
            )
        }
    } else {
        reply_rejected(
            pre,
            post,
            r0,
            ems,
            "unknownactivemembercategory"@,
            "Active Member has no such subcategory"@,
        )
    }
}

/// The board category: routes a subcategory to its handler.
pub struct BoardMessage {}

impl BoardMessage {
    /// Handles one board request; an unknown subcategory is answered with
    /// an error envelope and changes nothing; a body that fails its
    /// handler's shape is answered with that handler's error envelope.
    pub fn handle_with_corresponding_message(
        message_subcategory: &str,
        body: &Vec<BodyField>,
        store: &mut Store,
        context: &BoardContext,
    ) -> (r: (Result<ServerMessage, ServerMessage>, Vec<Emission>))
        requires
            old(store).wf(),
            context.subjects.wf(),
        ensures
            final(store).wf(),
            final(store).elements == old(store).elements,
            final(store).clients == old(store).clients,
            final(store).users == old(store).users,
            final(store).active_members == old(store).active_members,
            board_route_post(
                message_subcategory@,
                crate::json::members_view(body@),
                *old(store),
                *final(store),
                *context,
                r.0,
                r.1@,
            ),
    {
        if str_eq(message_subcategory, "memberadd") {
            match MemberAddMessage::parse(body) {
                Some(m) => m.handle(store, context),
                None => (
                    Err(
                        ServerMessage::error_response(
                            "memberadd".to_owned(),
                            "Member Add Message is invalid".to_owned(),
                        ),
                    ),
                    Vec::new(),
                ),
            }
        } else if str_eq(message_subcategory, "memberremove") {
            match MemberRemoveMessage::parse(body) {
                Some(m) => m.handle(store, context),
                None => (
                    Err(
                        ServerMessage::error_response(
                            "memberremove".to_owned(),
                            "Member Remove Message is invalid".to_owned(),
                        ),
                    ),
                    Vec::new(),
                ),
            }
        } else {
            (
                Err(
                    ServerMessage::error_response(
                        "unknownboardcategory".to_owned(),
                        "Board has no such subcategory".to_owned(),
                    ),
                ),
                Vec::new(),
            )
        }
    }
}

/// The element category: routes a subcategory to its handler.
pub struct ElementMessage {}

impl ElementMessage {
    /// Handles one element request; an unknown subcategory is answered
    /// with an error envelope and changes nothing; a body that fails its
    /// handler's shape is answered with that handler's error envelope.
    pub fn handle_with_corresponding_message(
        message_subcategory: &str,
        body: &Vec<BodyField>,
        store: &mut Store,
        context: &ElementContext,
    ) -> (r: (Result<ServerMessage, ServerMessage>, Vec<Emission>))
        requires
            old(store).wf(),
            context.subjects.wf(),
        ensures
            final(store).wf(),
            final(store).boards == old(store).boards,
            final(store).clients == old(store).clients,
            final(store).users == old(store).users,
            final(store).active_members == old(store).active_members,
            element_route_post(
                message_subcategory@,
                crate::json::members_view(body@),
                *old(store),
                *final(store),
                *context,
                r.0,
                r.1@,
            ),
    {
        if str_eq(message_subcategory, "createelement") {
            match CreateElementMessage::parse(body) {
                Some(m) => m.handle(store, context),
                None => (
                    Err(
                        ServerMessage::error_response(
                            "createelement".to_owned(),
                            "Create Element Message is invalid".to_owned(),
                        ),
                    ),
                    Vec::new(),
                ),
            }
        } else if str_eq(message_subcategory, "removeelement") {
            match RemoveElementMessage::parse(body) {
                Some(m) => m.handle(store, context),
                None => (
                    Err(
                        ServerMessage::error_response(
                            "removeelement".to_owned(),
                            "Remove Element Message is invalid".to_owned(),
                        ),
                    ),
                    Vec::new(),
                ),
            }
        } else if str_eq(message_subcategory, "lockelement") {
            match LockElementMessage::parse(body) {
                Some(m) => m.handle(store, context),
                None => (
                    Err(
                        ServerMessage::error_response(
                            "lockelement".to_owned(),
                            "Lock Element Message is invalid".to_owned(),
                        ),
                    ),
                    Vec::new(),
                ),
            }
        } else if str_eq(message_subcategory, "unlockelement") {
            match UnlockElementMessage::parse(body) {
                Some(m) => m.handle(store, context),
                None => (
                    Err(
                        ServerMessage::error_response(
                            "unlockelement".to_owned(),
                            "Unlock Element Message is invalid".to_owned(),
                        ),
                    ),
                    Vec::new(),
                ),
            }
        } else if str_eq(message_subcategory, "lockelements") {
            match LockElementsMessage::parse(body) {
                Some(m) => m.handle(store, context),
                None => (
                    Err(
                        ServerMessage::error_response(
                            "lockelements".to_owned(),
                            "Lock Elements Message is invalid".to_owned(),
                        ),
                    ),
                    Vec::new(),
                ),
            }
        } else if str_eq(message_subcategory, "unlockelements") {
            match UnlockElementsMessage::parse(body) {
                Some(m) => m.handle(store, context),
                None => (
                    Err(
                        ServerMessage::error_response(
                            "unlockelements".to_owned(),
                            "Unlock Elements Message is invalid".to_owned(),
                        ),
                    ),
                    Vec::new(),
                ),
            }
        } else if str_eq(message_subcategory, "updateelement") {
            match UpdateElementMessage::parse(body) {
                Some(m) => m.handle(store, context),
                None => (
                    Err(
                        ServerMessage::error_response(
                            "updateelement".to_owned(),
                            "Update Element Message is invalid".to_owned(),
                        ),
                    ),
                    Vec::new(),
                ),
            }
        } else if str_eq(message_subcategory, "moveelements") {
            match MoveElementsMessage::parse(body) {
                Some(m) => m.handle(store, context),
                None => (
                    Err(
                        ServerMessage::error_response(
                            "moveelements".to_owned(),
                            "Move Elements Message is invalid".to_owned(),
                        ),
                    ),
                    Vec::new(),
                ),
            }
        } else {
            (
                Err(
                    ServerMessage::error_response(
                        "unknownelementcategory".to_owned(),
                        "Element has no such subcategory".to_owned(),
                    ),
                ),
                Vec::new(),
            )
        }
    }
}

/// The active-member category: routes a subcategory to its handler.
pub struct ActiveMemberMessage {}

impl ActiveMemberMessage {
    /// Handles one active-member request; an unknown subcategory is
    /// answered with an error envelope and changes nothing; a body that
    /// fails its handler's shape is answered with that handler's error
    /// envelope.
    pub fn handle_with_corresponding_message(
        message_subcategory: &str,
        body: &Vec<BodyField>,
        store: &mut Store,
        context: &ActiveMemberContext,
    ) -> (r: (Result<ServerMessage, ServerMessage>, Vec<Emission>))
        requires
            old(store).wf(),
            context.subjects.wf(),
        ensures
            final(store).wf(),
            final(store).boards == old(store).boards,
            final(store).elements == old(store).elements,
            final(store).clients == old(store).clients,
            final(store).users == old(store).users,
            active_member_route_post(
                message_subcategory@,
                crate::json::members_view(body@),
                *old(store),
                *final(store),
                *context,
                r.0,
                r.1@,
            ),
    {
        if str_eq(message_subcategory, "createactivemember") {
            match CreateActiveMemberMessage::parse(body) {
                Some(m) => m.handle(store, context),
                None => (
                    Err(
                        ServerMessage::error_response(
                            "createactivemember".to_owned(),
                            "Create Active Member Message is invalid".to_owned(),
                        ),
                    ),
                    Vec::new(),
                ),
            }
        } else if str_eq(message_subcategory, "removeactivemember") {
            match RemoveActiveMemberMessage::parse(body) {
                Some(m) => m.handle(store, context),
                None => (
                    Err(
                        ServerMessage::error_response(
                            "removeactivemember".to_owned(),
                            "Remove Active Member Message is invalid".to_owned(),
                        ),
                    ),
                    Vec::new(),
                ),
            }
        } else if str_eq(message_subcategory, "changeactiveboard") {
            match ChangeActiveBoardMessage::parse(body) {
                Some(m) => m.handle(store, context),
                None => (
                    Err(
                        ServerMessage::error_response(
                            "changeactiveboard".to_owned(),
                            "Change Active Board Message is invalid".to_owned(),
                        ),
                    ),
                    Vec::new(),
                ),
            }
        } else if str_eq(message_subcategory, "updateposition") {
            match UpdatePositionMessage::parse(body) {
                Some(m) => m.handle(store, context),
                None => (
                    Err(
                        ServerMessage::error_response(
                            "updateposition".to_owned(),
                            "Update Position Message is invalid".to_owned(),
                        ),
                    ),
                    Vec::new(),
                ),
            }
        } else {
            (
                Err(
                    ServerMessage::error_response(
                        "unknownactivemembercategory".to_owned(),
                        "Active Member has no such subcategory".to_owned(),
                    ),
                ),
                Vec::new(),
            )
        }
    }
}


/// What dispatching one decoded request guarantees: a message type
/// without an underscore, or with an unknown category, is rejected with
/// its exact envelope and nothing changes; otherwise the request reaches
/// exactly the category named before the first underscore, with the text
/// up to the next underscore as the subcategory, and the result is that
/// router's.
pub open spec fn dispatch_post(
    mt: Seq<char>,
    ms: Seq<crate::json::JsonMember>,
    pre: Store,
    post: Store,
    bc: BoardContext,
    ec: ElementContext,
    ac: ActiveMemberContext,
    r0: Result<ServerMessage, ServerMessage>,
    ems: Seq<Emission>,
) -> bool {
    if forall|i: int| 0 <= i < mt.len() ==> mt[i] != '_' {
        reply_rejected(
            pre,
            post,
            r0,
            ems,
            "messagetypeparsing"@,
            "No actual message type provided"@,
        )
    } else {
        exists|u1: int|
            {
                &&& 0 <= u1 < mt.len()
                &&& #[trigger] mt[u1] == '_'
                &&& (forall|j: int| 0 <= j < u1 ==> mt[j] != '_')
                &&& (match crate::category::main_category_of(mt.take(u1)) {
                    WebTransportMessageMainCategory::Board => board_route_post(
                        crate::wire::between_underscores(mt, u1),
                        ms,
                        pre,
                        post,
                        bc,
                        r0,
                        ems,
                    ),
                    WebTransportMessageMainCategory::Element => element_route_post(
                        crate::wire::between_underscores(mt, u1),
                        ms,
                        pre,
                        post,
                        ec,
                        r0,
                        ems,
                    ),
                    WebTransportMessageMainCategory::ActiveMember => active_member_route_post(
                        crate::wire::between_underscores(mt, u1),
                        ms,
                        pre,
                        post,
                        ac,
                        r0,
                        ems,
                    ),
                    WebTransportMessageMainCategory::Unknown => reply_rejected(
                        pre,
                        post,
                        r0,
                        ems,
                        "messagecategory"@,
                        "Message Main Category unknown"@,
                    ),
                })
            }
    }
}

/// Routes one decoded request by its message type: the text before the
/// first underscore picks the domain, the text after it the handler. A
/// type without an underscore, or with an unknown category, is answered
/// with an error envelope and changes nothing.
pub fn handle_with_corresponding_category(
    frame: &ClientFrame,
    store: &mut Store,
    board_context: &BoardContext,
    element_context: &ElementContext,
    active_member_context: &ActiveMemberContext,
) -> (r: (Result<ServerMessage, ServerMessage>, Vec<Emission>))
    requires
        old(store).wf(),
        board_context.subjects.wf(),
        element_context.subjects.wf(),
        active_member_context.subjects.wf(),
    ensures
        final(store).wf(),
        final(store).users == old(store).users,
        final(store).clients == old(store).clients,
        dispatch_post(
            frame.message_type@,
            crate::json::members_view(frame.body@),
            *old(store),
            *final(store),
            *board_context,
            *element_context,
            *active_member_context,
            r.0,
            r.1@,
        ),
{
    let (category, subcategory) = match split_message_type(frame.message_type.as_str()) {
        Some(p) => p,
        None => {
            return (
                Err(
                    ServerMessage::error_response(
                        "messagetypeparsing".to_owned(),
                        "No actual message type provided".to_owned(),
                    ),
                ),
                Vec::new(),
            );
        },
    };
    let result = match WebTransportMessageMainCategory::to_enum(category.as_str()) {
        WebTransportMessageMainCategory::Board => BoardMessage::handle_with_corresponding_message(
            subcategory.as_str(),
            &frame.body,
            store,
            board_context,
        ),
        WebTransportMessageMainCategory::Element => {
            ElementMessage::handle_with_corresponding_message(
                subcategory.as_str(),
                &frame.body,
                store,
                element_context,
            )
        },
        WebTransportMessageMainCategory::ActiveMember => {
            ActiveMemberMessage::handle_with_corresponding_message(
                subcategory.as_str(),
                &frame.body,
                store,
                active_member_context,
            )
        },
        WebTransportMessageMainCategory::Unknown => (
            Err(
                ServerMessage::error_response(
                    "messagecategory".to_owned(),
                    "Message Main Category unknown".to_owned(),
                ),
            ),
            Vec::new(),
        ),
    };
    proof {
        let mt = frame.message_type@;
        let u1 = choose|i: int|
            0 <= i < mt.len() && mt[i] == '_' && category@ == mt.take(i) && (forall|j: int|
                0 <= j < i ==> mt[j] != '_') && subcategory@ == crate::wire::between_underscores(
                mt,
                i,
            );
        assert(mt[u1] == '_');
    }
    result
}

} // verus!
