//! The per-stream session protocol: the init handshake that binds a
//! stream to one category subscription, the per-frame step of the read
//! loop, and the teardown that frees the subscription.

use vstd::prelude::*;
use crate::category::EventCategory;
use crate::category::event_category_of;
use crate::context::ActiveMemberContext;
use crate::context::BoardContext;
use crate::context::ClientContext;
use crate::context::ElementContext;
use crate::dispatch::handle_with_corresponding_category;
use crate::hub::Emission;
use crate::hub::is_subscribed;
use crate::server_msg::ServerMessage;
use crate::store::Store;
use crate::store::has_board;
use crate::util::str_eq;
use crate::wire::decode_init;
use crate::wire::decode_request;
use crate::wire::spec_parse_init;

verus! {

/// A stream's binding after a successful handshake: the category it
/// subscribed to, the entity key, and its subscriber handle.
pub struct SessionBinding {
    pub category: EventCategory,
    pub key: String,
    pub subscriber: u64,
}

/// When a handshake is accepted: the text is exactly one init frame whose
/// message type is the init one and whose category is known, and, for
/// every category but the client one, whose context id names a stored
/// board.
pub open spec fn init_accepted(store: Store, text: Seq<char>) -> bool {
    match spec_parse_init(text) {
        Some(t) => t.0 == "init"@ && (match event_category_of(t.1) {
            Some(c) => c == EventCategory::Client || has_board(store.boards@, t.2),
            None => false,
        }),
        None => false,
    }
}

/// Validates an init frame and resolves the subject key: the frame must
/// carry the init message type and a known event category; for every
/// category but the client one, the context id must name a stored board;
/// a client subscription uses the context id verbatim as a user id. On
/// success the matching context's topic exists.
pub fn init_with_id_and_event_category(
    board_context: &mut BoardContext,
    element_context: &mut ElementContext,
    client_context: &mut ClientContext,
    active_member_context: &mut ActiveMemberContext,
    store: &Store,
    message: &str,
) -> (r: Result<(String, EventCategory), String>)
    requires
        old(board_context).subjects.wf(),
        old(element_context).subjects.wf(),
        old(client_context).subjects.wf(),
        old(active_member_context).subjects.wf(),
    ensures
        final(board_context).subjects.wf(),
        final(element_context).subjects.wf(),
        final(client_context).subjects.wf(),
        final(active_member_context).subjects.wf(),
        forall|k: Seq<char>, s: u64|
            is_subscribed(final(board_context).subjects.topics@, k, s) == is_subscribed(
                old(board_context).subjects.topics@,
                k,
                s,
            ),
        forall|k: Seq<char>, s: u64|
            is_subscribed(final(element_context).subjects.topics@, k, s) == is_subscribed(
                old(element_context).subjects.topics@,
                k,
                s,
            ),
        forall|k: Seq<char>, s: u64|
            is_subscribed(final(client_context).subjects.topics@, k, s) == is_subscribed(
                old(client_context).subjects.topics@,
                k,
                s,
            ),
        forall|k: Seq<char>, s: u64|
            is_subscribed(final(active_member_context).subjects.topics@, k, s) == is_subscribed(
                old(active_member_context).subjects.topics@,
                k,
                s,
            ),
        final(board_context).subjects.next_subscriber == old(
            board_context,
        ).subjects.next_subscriber,
        final(element_context).subjects.next_subscriber == old(
            element_context,
        ).subjects.next_subscriber,
        final(client_context).subjects.next_subscriber == old(
            client_context,
        ).subjects.next_subscriber,
        final(active_member_context).subjects.next_subscriber == old(
            active_member_context,
        ).subjects.next_subscriber,
        r is Ok == init_accepted(*store, message@),
        match r {
            Ok(p) => {
                &&& spec_parse_init(message@) matches Some(t)
                &&& t.0 == "init"@
                &&& event_category_of(t.1) == Some(p.1)
                &&& (p.1 == EventCategory::Client || has_board(store.boards@, t.2))
                &&& p.0@ == t.2
                &&& (match p.1 {
                    EventCategory::Board => crate::hub::has_topic(
                        final(board_context).subjects.topics@,
                        p.0@,
                    ),
                    EventCategory::Client => crate::hub::has_topic(
                        final(client_context).subjects.topics@,
                        p.0@,
                    ),
                    EventCategory::ActiveMember => crate::hub::has_topic(
                        final(active_member_context).subjects.topics@,
                        p.0@,
                    ),
                    EventCategory::Element => crate::hub::has_topic(
                        final(element_context).subjects.topics@,
                        p.0@,
                    ),
                })
            },
            Err(_) => true,
        },
{
    let init = match decode_init(message) {
        Some(m) => m,
        None => {
            return Err(
                "Init Message couldn't be deserialized into the InitMessage struct".to_owned(),
            );
        },
    };
    if !str_eq(init.message_type.as_str(), "init") {
        return Err("Init Message: `messageType` != 'init'".to_owned());
    }
    let event_category = match EventCategory::get_category_by_string(init.event_category) {
        Ok(category) => category,
        Err(()) => {
            return Err("Invalid event category".to_owned());
        },
    };
    let is_client = match event_category {
        EventCategory::Client => true,
        _ => false,
    };
    if !is_client && store.find_board(init.context_id.as_str()).is_none() {
        return Err("No Board found with the Board Id".to_owned());
    }
    let subject_id = init.context_id;
    match event_category {
        EventCategory::Board => {
            let key = board_context.get_or_create_subject_return_board_id(&subject_id);
            Ok((key, event_category))
        },
        EventCategory::Client => {
            let key = client_context.get_or_create_subject_return_user_id(&subject_id);
            Ok((key, event_category))
        },
        EventCategory::ActiveMember => {
            let key = active_member_context.get_or_create_subject_return_board_id(&subject_id);
            Ok((key, event_category))
        },
        EventCategory::Element => {
            let key = element_context.get_or_create_subject_return_board_id(&subject_id);
            Ok((key, event_category))
        },
    }
}

/// Runs the whole handshake: validates the init frame, subscribes the
/// stream to its category's topic, and produces the acknowledgement frame
/// to write back. A failed handshake subscribes nothing and the stream
/// must be dropped.
pub fn open_session(
    board_context: &mut BoardContext,
    element_context: &mut ElementContext,
    client_context: &mut ClientContext,
    active_member_context: &mut ActiveMemberContext,
    store: &Store,
    message: &str,
) -> (r: Result<(SessionBinding, ServerMessage), String>)
    requires
        old(board_context).subjects.wf(),
        old(element_context).subjects.wf(),
        old(client_context).subjects.wf(),
        old(active_member_context).subjects.wf(),
        old(board_context).subjects.next_subscriber < u64::MAX,
        old(element_context).subjects.next_subscriber < u64::MAX,
        old(client_context).subjects.next_subscriber < u64::MAX,
        old(active_member_context).subjects.next_subscriber < u64::MAX,
    ensures
        final(board_context).subjects.wf(),
        final(element_context).subjects.wf(),
        final(client_context).subjects.wf(),
        final(active_member_context).subjects.wf(),
        r is Ok == init_accepted(*store, message@),
        r is Err ==> forall|k: Seq<char>, s: u64|
            is_subscribed(final(board_context).subjects.topics@, k, s) == is_subscribed(
                old(board_context).subjects.topics@,
                k,
                s,
            ) && is_subscribed(final(element_context).subjects.topics@, k, s) == is_subscribed(
                old(element_context).subjects.topics@,
                k,
                s,
            ) && is_subscribed(final(client_context).subjects.topics@, k, s) == is_subscribed(
                old(client_context).subjects.topics@,
                k,
                s,
            ) && is_subscribed(final(active_member_context).subjects.topics@, k, s)
                == is_subscribed(old(active_member_context).subjects.topics@, k, s),
        match r {
            Ok(p) => {
                &&& spec_parse_init(message@) matches Some(t)
                &&& event_category_of(t.1) == Some(p.0.category)
                &&& p.0.key@ == t.2
                &&& p.1.message_type@ == "success"@
                &&& p.1.status@ == "OK"@
                &&& p.1.body@ == "initialized"@
                &&& (match p.0.category {
                    EventCategory::Board => is_subscribed(
                        final(board_context).subjects.topics@,
                        p.0.key@,
                        p.0.subscriber,
                    ),
                    EventCategory::Client => is_subscribed(
                        final(client_context).subjects.topics@,
                        p.0.key@,
                        p.0.subscriber,
                    ),
                    EventCategory::ActiveMember => is_subscribed(
                        final(active_member_context).subjects.topics@,
                        p.0.key@,
                        p.0.subscriber,
                    ),
                    EventCategory::Element => is_subscribed(
                        final(element_context).subjects.topics@,
                        p.0.key@,
                        p.0.subscriber,
                    ),
                })
            },
            Err(_) => true,
        },
{
    let (key, category) = match init_with_id_and_event_category(
        board_context,
        element_context,
        client_context,
        active_member_context,
        store,
        message,
    ) {
        Ok(p) => p,
        Err(e) => {
            return Err(e);
        },
    };
    let subscriber = match category {
        EventCategory::Board => board_context.subjects.subscribe(&key),
        EventCategory::Client => client_context.subjects.subscribe(&key),
        EventCategory::ActiveMember => active_member_context.subjects.subscribe(&key),
        EventCategory::Element => element_context.subjects.subscribe(&key),
    };
    let ack = ServerMessage::new(
        "success".to_owned(),
        "OK".to_owned(),
        "initialized".to_owned(),
    );
    Ok((SessionBinding { category, key, subscriber }, ack))
}

/// One step of the read loop: decodes a request frame, dispatches it and
/// hands back the response to write plus the emissions to fan out; a
/// rejected request is the `Err` side, and either side is written back.
/// A frame that does not decode is fatal: nothing is returned, nothing
/// changes, and the host must end the stream; the client reconnects and
/// re-runs the handshake.
pub fn session_step(
    text: &str,
    store: &mut Store,
    board_context: &BoardContext,
    element_context: &ElementContext,
    active_member_context: &ActiveMemberContext,
) -> (r: Option<(Result<ServerMessage, ServerMessage>, Vec<Emission>)>)
    requires
        old(store).wf(),
        board_context.subjects.wf(),
        element_context.subjects.wf(),
        active_member_context.subjects.wf(),
    ensures
        final(store).wf(),
        r is None == crate::wire::spec_parse_request(text@) is None,
        r is None ==> *final(store) == *old(store),
        match r {
            None => true,
            Some(p) => {
                &&& crate::wire::spec_parse_request(text@) matches Some(t)
                &&& crate::dispatch::dispatch_post(
                    t.0,
                    t.1,
                    *old(store),
                    *final(store),
                    *board_context,
                    *element_context,
                    *active_member_context,
                    p.0,
                    p.1@,
                )
            },
        },
{
    let frame = match decode_request(text) {
        Some(f) => f,
        None => {
            return None;
        },
    };
    let (response, emissions) = handle_with_corresponding_category(
        &frame,
        store,
        board_context,
        element_context,
        active_member_context,
    );
    proof {
        let t = crate::wire::spec_parse_request(text@)->Some_0;
        assert(t.0 == frame.message_type@);
        assert(t.1 == crate::json::members_view(frame.body@));
    }
    Some((response, emissions))
}

/// Tears a session down: the stream's subscriber handle is dropped from
/// its category's hub and receives nothing afterwards; all other handles
/// are untouched.
pub fn close_session(
    binding: &SessionBinding,
    board_context: &mut BoardContext,
    element_context: &mut ElementContext,
    client_context: &mut ClientContext,
    active_member_context: &mut ActiveMemberContext,
)
    requires
        old(board_context).subjects.wf(),
        old(element_context).subjects.wf(),
        old(client_context).subjects.wf(),
        old(active_member_context).subjects.wf(),
    ensures
        final(board_context).subjects.wf(),
        final(element_context).subjects.wf(),
        final(client_context).subjects.wf(),
        final(active_member_context).subjects.wf(),
        match binding.category {
            EventCategory::Board => forall|k: Seq<char>|
                !is_subscribed(final(board_context).subjects.topics@, k, binding.subscriber),
            EventCategory::Client => forall|k: Seq<char>|
                !is_subscribed(final(client_context).subjects.topics@, k, binding.subscriber),
            EventCategory::ActiveMember => forall|k: Seq<char>|
                !is_subscribed(
                    final(active_member_context).subjects.topics@,
                    k,
                    binding.subscriber,
                ),
            EventCategory::Element => forall|k: Seq<char>|
                !is_subscribed(final(element_context).subjects.topics@, k, binding.subscriber),
        },
{
    match binding.category {
        EventCategory::Board => board_context.subjects.unsubscribe(binding.subscriber),
        EventCategory::Client => client_context.subjects.unsubscribe(binding.subscriber),
        EventCategory::ActiveMember => active_member_context.subjects.unsubscribe(
            binding.subscriber,
        ),
        EventCategory::Element => element_context.subjects.unsubscribe(binding.subscriber),
    }
}

} // verus!
