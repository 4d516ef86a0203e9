//! Client-record operations and the release of all locks a user holds:
//! the mutations the request/response surface triggers on the core.

use vstd::prelude::*;
use crate::context::ClientContext;
use crate::context::ClientEvent;
use crate::context::ClientEventType;
use crate::context::ElementContext;
use crate::context::ElementEvent;
use crate::context::ElementEventType;
use crate::context::client_event_name;
use crate::context::element_event_name;
use crate::element_msgs::ElementUnlockedEventPayload;
use crate::element_msgs::emission_reaches;
use crate::element_msgs::spec_sole_id_body;
use crate::hub::Emission;
use crate::json::BodyField;
use crate::json::FieldValue;
use crate::json::JsonVal;
use crate::json::members_view;
use crate::json::render_body_into;
use crate::json::smem;
use crate::json::spec_render_body;
use crate::records::Client;
use crate::records::DeviceType;
use crate::records::device_type_of;
use crate::store::Store;
use crate::store::has_client_for;
use crate::util::str_eq;

verus! {

/// The index of the client record for this user, if stored.
pub open spec fn spec_find_client(s: Seq<Client>, user_id: Seq<char>) -> Option<int> {
    if has_client_for(s, user_id) {
        Some(choose|i: int| 0 <= i < s.len() && s[i].user_id@ == user_id)
    } else {
        None
    }
}

/// The body announcing a changed client record.
pub open spec fn spec_client_body(
    user: Seq<char>,
    device: Seq<char>,
    client: Seq<char>,
) -> Seq<char> {
    spec_render_body(
        seq![
            smem("userId"@, JsonVal::Str(user)),
            smem("deviceType"@, JsonVal::Str(device)),
            smem("clientId"@, JsonVal::Str(client)),
        ],
    )
}

/// The event payload announcing a created or replaced client record.
pub struct ClientCreatedOrUpdatedPayload {
    pub user_id: String,
    pub device_type: String,
    pub client_id: String,
}

impl ClientCreatedOrUpdatedPayload {
    /// Encodes this payload as its wire object.
    pub fn encode(&self) -> (r: String)
        ensures
            r@ == spec_client_body(self.user_id@, self.device_type@, self.client_id@),
    {
        let mut fields: Vec<BodyField> = Vec::new();
        fields.push(
            BodyField { key: "userId".to_owned(), value: FieldValue::Str(self.user_id.clone()) },
        );
        fields.push(
            BodyField {
                key: "deviceType".to_owned(),
                value: FieldValue::Str(self.device_type.clone()),
            },
        );
        fields.push(
            BodyField { key: "clientId".to_owned(), value: FieldValue::Str(self.client_id.clone()) },
        );
        let mut out = String::new();
        render_body_into(&mut out, &fields);
        proof {
            assert(members_view(fields@) =~= seq![
                smem("userId"@, JsonVal::Str(self.user_id@)),
                smem("deviceType"@, JsonVal::Str(self.device_type@)),
                smem("clientId"@, JsonVal::Str(self.client_id@)),
            ]);
        }
        out
    }
}

/// The request to create or replace a user's client record.
pub struct CreateOrUpdateClientPayload {
    pub client_id: String,
    pub user_id: String,
    pub device_type: String,
}

/// The confirmation of a created or replaced client record.
pub struct CreateOrUpdateClientResponsePayload {
    pub client_id: String,
    pub user_id: String,
    pub device_type: String,
}

/// A fetched client record, as handed back to a caller.
pub struct GetClientReponsePayload {
    pub client_id: String,
    pub user_id: String,
    pub device_type: String,
}

/// What an upsert of a client record did.
#[derive(Clone, Copy, Debug, PartialEq, Eq, Structural)]
pub enum ClientUpsertOutcome {
    /// The stored record already carried this client id; nothing changed.
    Unchanged,
    /// The stored record was replaced; the change was announced.
    Updated,
    /// No record existed; one was created, silently.
    Created,
}

/// Creates or replaces the client record for a user: the same client id
/// changes nothing; a different one replaces the record and announces the
/// change to the user's subscribers; a missing record is created without
/// an announcement.
pub fn create_or_update_client(
    payload: &CreateOrUpdateClientPayload,
    store: &mut Store,
    context: &ClientContext,
) -> (r: (ClientUpsertOutcome, Vec<Emission>))
    requires
        old(store).wf(),
        context.subjects.wf(),
    ensures
        final(store).wf(),
        final(store).boards == old(store).boards,
        final(store).elements == old(store).elements,
        final(store).users == old(store).users,
        final(store).active_members == old(store).active_members,
        match spec_find_client(old(store).clients@, payload.user_id@) {
            Some(j) => if old(store).clients@[j].client_id@ == payload.client_id@ {
                &&& r.0 == ClientUpsertOutcome::Unchanged
                &&& final(store).clients == old(store).clients
                &&& r.1@.len() == 0
            } else {
                &&& r.0 == ClientUpsertOutcome::Updated
                &&& final(store).clients@.len() == old(store).clients@.len()
                &&& (forall|k: int|
                    0 <= k < old(store).clients@.len() && k != j ==> final(store).clients@[k] == old(
                        store,
                    ).clients@[k])
                &&& final(store).clients@[j]._id == old(store).clients@[j]._id
                &&& final(store).clients@[j].user_id == old(store).clients@[j].user_id
                &&& final(store).clients@[j].client_id == payload.client_id
                &&& final(store).clients@[j].device_type == device_type_of(payload.device_type@)
                &&& r.1@.len() == 1
                &&& emission_reaches(
                    r.1@[0],
                    context.subjects,
                    payload.user_id@,
                    client_event_name(ClientEventType::Changed),
                    spec_client_body(payload.user_id@, payload.device_type@, payload.client_id@),
                )
            },
            None => {
                &&& r.0 == ClientUpsertOutcome::Created
                &&& final(store).clients@.len() == old(store).clients@.len() + 1
                &&& (forall|k: int|
                    0 <= k < old(store).clients@.len() ==> final(store).clients@[k] == old(
                        store,
                    ).clients@[k])
                &&& final(store).clients@.last().user_id == payload.user_id
                &&& final(store).clients@.last().client_id == payload.client_id
                &&& final(store).clients@.last().device_type == device_type_of(
                    payload.device_type@,
                )
                &&& r.1@.len() == 0
            },
        },
{
    match store.find_client_by_user(payload.user_id.as_str()) {
        Some(j) => {
            proof {
                let ghost jj = spec_find_client(store.clients@, payload.user_id@)->Some_0;
                assert(store.clients@[jj].user_id@ == payload.user_id@);
                assert(jj == j) by {
                    if jj != j {
                        let cs = store.clients@;
                        assert(cs[jj].user_id@ != cs[j as int].user_id@);
                    }
                }
            }
            if str_eq(store.clients[j].client_id.as_str(), payload.client_id.as_str()) {
                return (ClientUpsertOutcome::Unchanged, Vec::new());
            }
            let mut replaced = store.clients[j].duplicate();
            replaced.client_id = payload.client_id.clone();
            replaced.device_type = DeviceType::to_enum(payload.device_type.clone());
            store.replace_client_at(j, replaced);
            let event_payload = ClientCreatedOrUpdatedPayload {
                user_id: payload.user_id.clone(),
                device_type: payload.device_type.clone(),
                client_id: payload.client_id.clone(),
            };
            let emission = match context.emit_client_event(
                store,
                payload.user_id.as_str(),
                ClientEvent {
                    event_type: ClientEventType::Changed,
                    body: event_payload.encode(),
                },
            ) {
                Some(em) => em,
                None => {
                    proof {
                        assert(store.clients@[j as int].user_id@ == payload.user_id@);
                        assert(has_client_for(store.clients@, payload.user_id@));
                    }
                    vstd::pervasive::unreached()
                },
            };
            let mut emissions: Vec<Emission> = Vec::new();
            emissions.push(emission);
            (ClientUpsertOutcome::Updated, emissions)
        },
        None => {
            let id = store.fresh_id();
            let record = Client {
                _id: id,
                client_id: payload.client_id.clone(),
                user_id: payload.user_id.clone(),
                device_type: DeviceType::to_enum(payload.device_type.clone()),
            };
            let inserted = store.insert_client(record);
            proof {
                assert(inserted);
            }
            (ClientUpsertOutcome::Created, Vec::new())
        },
    }
}

/// Deletes a user's client record on logout: the deletion is announced to
/// the user's subscribers with the user id as the raw body; a user with no
/// record changes nothing.
pub fn delete_client(user_id: &String, store: &mut Store, context: &ClientContext) -> (r: (
    bool,
    Vec<Emission>,
))
    requires
        old(store).wf(),
        context.subjects.wf(),
    ensures
        final(store).wf(),
        final(store).boards == old(store).boards,
        final(store).elements == old(store).elements,
        final(store).users == old(store).users,
        final(store).active_members == old(store).active_members,
        match spec_find_client(old(store).clients@, user_id@) {
            None => {
                &&& r.0 == false
                &&& final(store).clients == old(store).clients
                &&& r.1@.len() == 0
            },
            Some(j) => {
                &&& r.0 == true
                &&& final(store).clients@ == old(store).clients@.remove(j)
                &&& r.1@.len() == 1
                &&& r.1@[0].message.message_type@ == client_event_name(ClientEventType::Deleted)
                &&& r.1@[0].message.status@ == "OK"@
                &&& r.1@[0].message.body@ == user_id@
                &&& (forall|t: u64|
                    r.1@[0].subscribers@.contains(t) == crate::hub::is_subscribed(
                        context.subjects.topics@,
                        user_id@,
                        t,
                    ))
            },
        },
{
    let j = match store.find_client_by_user(user_id.as_str()) {
        Some(j) => j,
        None => {
            proof {
                assert(spec_find_client(store.clients@, user_id@) is None);
            }
            return (false, Vec::new());
        },
    };
    proof {
        let ghost jj = spec_find_client(store.clients@, user_id@)->Some_0;
        assert(store.clients@[jj].user_id@ == user_id@);
        assert(jj == j) by {
            if jj != j {
                let cs = store.clients@;
                assert(cs[jj].user_id@ != cs[j as int].user_id@);
            }
        }
    }
    store.remove_client_at(j);
    // The record itself is gone, so the deletion is announced with the raw
    // user id as the body, to whoever is still subscribed to this user.
    let subscribers = context.subjects.publish(user_id.as_str());
    let message = crate::server_msg::ServerMessage::event(
        ClientEventType::Deleted.to_string(),
        user_id.clone(),
    );
    let mut emissions: Vec<Emission> = Vec::new();
    emissions.push(Emission { subscribers, message });
    (true, emissions)
}

/// Releases every element lock a user holds, announcing one unlock per
/// released element on the given board key, and returns the released
/// element ids. Safe to call when the user holds no locks: nothing
/// changes and nothing is announced.
pub fn unlock_all_for_user(
    user_id: &String,
    board_id: &String,
    store: &mut Store,
    context: &ElementContext,
) -> (r: (Vec<String>, Vec<Emission>))
    requires
        old(store).wf(),
        context.subjects.wf(),
    ensures
        final(store).wf(),
        final(store).boards == old(store).boards,
        final(store).clients == old(store).clients,
        final(store).users == old(store).users,
        final(store).active_members == old(store).active_members,
        final(store).elements@ == crate::store::batch_released(old(store).elements@, user_id@),
        ({
            let found = old(store).elements@.filter(
                |e: crate::records::Element| crate::lock::lock_state(e) == Some(user_id@),
            );
            &&& r.0@.len() == found.len()
            &&& (forall|k: int| 0 <= k < found.len() ==> r.0@[k]@ == #[trigger] found[k]._id@)
            &&& r.1@.len() == found.len()
            &&& (forall|k: int|
                0 <= k < found.len() ==> emission_reaches(
                    #[trigger] r.1@[k],
                    context.subjects,
                    board_id@,
                    element_event_name(ElementEventType::Unlocked),
                    spec_sole_id_body(found[k]._id@),
                ))
        }),
{
    let found = store.elements_locked_by(user_id);
    store.release_locks_of(user_id);
    let mut ids: Vec<String> = Vec::new();
    let mut emissions: Vec<Emission> = Vec::new();
    let ghost found_view = found@;
    let mut k: usize = 0;
    while k < found.len()
        invariant
            k <= found@.len(),
            found@ == found_view,
            ids@.len() == k,
            emissions@.len() == k,
            context.subjects.wf(),
            forall|x: int| 0 <= x < k ==> ids@[x]@ == #[trigger] found@[x]._id@,
            forall|x: int|
                0 <= x < k ==> emission_reaches(
                    #[trigger] emissions@[x],
                    context.subjects,
                    board_id@,
                    element_event_name(ElementEventType::Unlocked),
                    spec_sole_id_body(found@[x]._id@),
                ),
        decreases found@.len() - k,
    {
        let id = found[k]._id.clone();
        let payload = ElementUnlockedEventPayload { _id: id.clone() };
        let emission = context.emit_element_event(
            board_id.as_str(),
            ElementEvent { event_type: ElementEventType::Unlocked, body: payload.encode() },
        );
        emissions.push(emission);
        ids.push(id);
        k = k + 1;
    }
    (ids, emissions)
}

} // verus!
