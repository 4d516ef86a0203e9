//! Core of a real-time collaborative whiteboard backend.
//!
//! Boards hold positioned elements that users edit concurrently. Every
//! mutation is distributed to all connected participants through in-memory
//! publish/subscribe hubs, and concurrent edits to one element are
//! serialized by an optimistic per-element lock. The crate provides:
//!
//! - the wire codec for the JSON envelopes exchanged on a session stream,
//! - the per-domain event hubs (board, element, client, active member),
//! - the element-locking discipline, single and batched,
//! - the message dispatcher and its handlers over an in-memory record store,
//! - the session handshake and per-frame step function.
//!
//! Transport, TLS, and durable storage are collaborators outside this crate:
//! a host wires byte streams and a persistence layer to the functions here.

pub mod active_member_msgs;
pub mod board_msgs;
pub mod category;
pub mod client_ops;
pub mod context;
pub mod dispatch;
pub mod element_msgs;
pub mod fields;
pub mod hub;
pub mod json;
pub mod lock;
pub mod records;
pub mod server_msg;
pub mod session;
pub mod store;
pub mod util;
pub mod wire;

use vstd::prelude::*;

verus! {

} // verus!
