//! The two category namespaces of the protocol: the event categories a
//! stream can subscribe to, and the main categories of request message
//! types.

use vstd::prelude::*;
use crate::util::str_eq;

verus! {

/// What a stream subscribes to after its handshake.
#[derive(Clone, Copy, Debug, PartialEq, Eq, Structural)]
pub enum EventCategory {
    Board,
    Client,
    ActiveMember,
    Element,
}

/// The event category a name denotes, if any.
pub open spec fn event_category_of(s: Seq<char>) -> Option<EventCategory> {
    if s == "board"@ {
        Some(EventCategory::Board)
    } else if s == "client"@ {
        Some(EventCategory::Client)
    } else if s == "active_member"@ {
        Some(EventCategory::ActiveMember)
    } else if s == "element"@ {
        Some(EventCategory::Element)
    } else {
        None
    }
}

impl EventCategory {
    /// Parses an event-category name; every other name is rejected.
    pub fn get_category_by_string(category_string: String) -> (r: Result<Self, ()>)
        ensures
            match r {
                Ok(c) => event_category_of(category_string@) == Some(c),
                Err(()) => event_category_of(category_string@) is None,
            },
    {
        let category_str = category_string.as_str();
        if str_eq(category_str, "board") {
            Ok(EventCategory::Board)
        } else if str_eq(category_str, "client") {
            Ok(EventCategory::Client)
        } else if str_eq(category_str, "active_member") {
            Ok(EventCategory::ActiveMember)
        } else if str_eq(category_str, "element") {
            Ok(EventCategory::Element)
        } else {
            Err(())
        }
    }
}

/// The first segment of a request message type.
#[derive(Clone, Copy, Debug, PartialEq, Eq, Structural)]
pub enum WebTransportMessageMainCategory {
    Board,
    Element,
    ActiveMember,
    Unknown,
}

/// The main category a name denotes; every unknown name maps to
/// `Unknown`.
pub open spec fn main_category_of(s: Seq<char>) -> WebTransportMessageMainCategory {
    if s == "board"@ {
        WebTransportMessageMainCategory::Board
    } else if s == "element"@ {
        WebTransportMessageMainCategory::Element
    } else if s == "activemember"@ {
        WebTransportMessageMainCategory::ActiveMember
    } else {
        WebTransportMessageMainCategory::Unknown
    }
}

impl WebTransportMessageMainCategory {
    /// Parses a main-category name; unknown names become `Unknown`.
    pub fn to_enum(string: &str) -> (r: Self)
        ensures
            r == main_category_of(string@),
    {
        if str_eq(string, "board") {
            Self::Board
        } else if str_eq(string, "element") {
            Self::Element
        } else if str_eq(string, "activemember") {
            Self::ActiveMember
        } else {
            Self::Unknown
        }
    }
}

} // verus!
