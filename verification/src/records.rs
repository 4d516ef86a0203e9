//! The domain records: boards, elements, clients, users, active members and
//! element types, together with their creation and partial-update shapes.
//!
//! Geometry (coordinates, rotation, scale) is carried in integer canvas
//! units; timestamps are carried as their wire text.

use vstd::prelude::*;
use crate::util::clone_string_vec;
use crate::util::str_eq;

verus! {

/// The kind of device a client record was created from.
#[derive(Clone, Copy, Debug, PartialEq, Eq, Structural)]
pub enum DeviceType {
    Web,
    Android,
    Ios,
    Other,
}

/// Which device type a name denotes; every unknown name maps to `Other`.
pub open spec fn device_type_of(s: Seq<char>) -> DeviceType {
    if s == "Web"@ {
        DeviceType::Web
    } else if s == "Android"@ {
        DeviceType::Android
    } else if s == "IOS"@ {
        DeviceType::Ios
    } else {
        DeviceType::Other
    }
}

/// The name of a device type, as it travels on the wire.
pub open spec fn device_type_name(d: DeviceType) -> Seq<char> {
    match d {
        DeviceType::Web => "Web"@,
        DeviceType::Android => "Android"@,
        DeviceType::Ios => "IOS"@,
        DeviceType::Other => "Other"@,
    }
}

impl DeviceType {
    /// Parses a device-type name; unknown names become `Other`.
    pub fn to_enum(enum_string: String) -> (r: Self)
        ensures
            r == device_type_of(enum_string@),
    {
        if str_eq(enum_string.as_str(), "Web") {
            DeviceType::Web
        } else if str_eq(enum_string.as_str(), "Android") {
            DeviceType::Android
        } else if str_eq(enum_string.as_str(), "IOS") {
            DeviceType::Ios
        } else {
            DeviceType::Other
        }
    }

    /// The wire name of this device type.
    pub fn to_string(&self) -> (r: String)
        ensures
            r@ == device_type_name(*self),
    {
        match self {
            DeviceType::Web => "Web".to_owned(),
            DeviceType::Android => "Android".to_owned(),
            DeviceType::Ios => "IOS".to_owned(),
            DeviceType::Other => "Other".to_owned(),
        }
    }
}

/// A shared canvas: a host and the set of users allowed on it.
/// Well-formed boards always list the host among the allowed members.
#[derive(Debug, PartialEq)]
pub struct Board {
    pub _id: String,
    pub name: String,
    pub host: String,
    pub allowed_members: Vec<String>,
}

impl Board {
    /// A board is well formed when its host is an allowed member.
    pub open spec fn wf(self) -> bool {
        exists|i: int| 0 <= i < self.allowed_members@.len()
            && self.allowed_members@[i]@ == self.host@
    }

    /// A copy of this board, equal to it field by field; the member list
    /// is copied element by element.
    pub fn duplicate(&self) -> (r: Board)
        ensures
            r._id == self._id,
            r.name == self.name,
            r.host == self.host,
            r.allowed_members@ == self.allowed_members@,
    {
        Board {
            _id: self._id.clone(),
            name: self.name.clone(),
            host: self.host.clone(),
            allowed_members: clone_string_vec(&self.allowed_members),
        }
    }
}

/// Fields needed to create a board.
#[derive(Debug, PartialEq)]
pub struct CreateBoard {
    pub name: String,
    pub host: String,
    pub allowed_members: Vec<String>,
}

/// Partial update of a board; `None` fields are left unchanged.
#[derive(Debug, PartialEq)]
pub struct UpdateBoard {
    pub name: Option<String>,
    pub host: Option<String>,
    pub allowed_members: Option<Vec<String>>,
}

/// A positioned, lockable object on a board.
#[derive(Debug, PartialEq)]
pub struct Element {
    pub _id: String,
    pub selected: bool,
    pub locked_by: Option<String>,
    pub x: i64,
    pub y: i64,
    pub rotation: i64,
    pub scale_x: i64,
    pub scale_y: i64,
    pub z_index: i32,
    pub created_at: String,
    pub text: String,
    pub element_type: String,
    pub board_id: String,
    pub color: String,
}

/// Fields needed to create an element.
#[derive(Debug, PartialEq)]
pub struct CreateElement {
    pub _id: String,
    pub selected: bool,
    pub locked_by: Option<String>,
    pub x: i64,
    pub y: i64,
    pub rotation: i64,
    pub scale_x: i64,
    pub scale_y: i64,
    pub z_index: i32,
    pub created_at: String,
    pub text: String,
    pub element_type: String,
    pub board_id: String,
    pub color: String,
}

/// Partial update of an element; `None` fields are left unchanged. The
/// `locked_by` field distinguishes "leave the lock alone" (`None`) from
/// "set the lock to this holder or clear it" (`Some(..)`).
#[derive(Debug, PartialEq)]
pub struct UpdateElement {
    pub selected: Option<bool>,
    pub locked_by: Option<Option<String>>,
    pub x: Option<i64>,
    pub y: Option<i64>,
    pub rotation: Option<i64>,
    pub scale_x: Option<i64>,
    pub scale_y: Option<i64>,
    pub z_index: Option<i32>,
    pub text: Option<String>,
    pub color: Option<String>,
}

/// The element that results from applying a partial update.
pub open spec fn spec_updated_element(e: Element, u: UpdateElement) -> Element {
    Element {
        _id: e._id,
        selected: if u.selected is Some { u.selected->Some_0 } else { e.selected },
        locked_by: if u.locked_by is Some { u.locked_by->Some_0 } else { e.locked_by },
        x: if u.x is Some { u.x->Some_0 } else { e.x },
        y: if u.y is Some { u.y->Some_0 } else { e.y },
        rotation: if u.rotation is Some { u.rotation->Some_0 } else { e.rotation },
        scale_x: if u.scale_x is Some { u.scale_x->Some_0 } else { e.scale_x },
        scale_y: if u.scale_y is Some { u.scale_y->Some_0 } else { e.scale_y },
        z_index: if u.z_index is Some { u.z_index->Some_0 } else { e.z_index },
        created_at: e.created_at,
        text: if u.text is Some { u.text->Some_0 } else { e.text },
        element_type: e.element_type,
        board_id: e.board_id,
        color: if u.color is Some { u.color->Some_0 } else { e.color },
    }
}

impl Element {
    /// A copy of this element, equal to it field by field.
    pub fn duplicate(&self) -> (r: Element)
        ensures
            r == *self,
    {
        Element {
            _id: self._id.clone(),
            selected: self.selected,
            locked_by: match &self.locked_by {
                Some(u) => Some(u.clone()),
                None => None,
            },
            x: self.x,
            y: self.y,
            rotation: self.rotation,
            scale_x: self.scale_x,
            scale_y: self.scale_y,
            z_index: self.z_index,
            created_at: self.created_at.clone(),
            text: self.text.clone(),
            element_type: self.element_type.clone(),
            board_id: self.board_id.clone(),
            color: self.color.clone(),
        }
    }

    /// Applies a partial update, leaving `None` fields unchanged.
    pub fn updated(&self, u: &UpdateElement) -> (r: Element)
        ensures
            r == spec_updated_element(*self, *u),
    {
        Element {
            _id: self._id.clone(),
            selected: match u.selected {
                Some(v) => v,
                None => self.selected,
            },
            locked_by: match &u.locked_by {
                Some(v) => v.clone(),
                None => self.locked_by.clone(),
            },
            x: match u.x {
                Some(v) => v,
                None => self.x,
            },
            y: match u.y {
                Some(v) => v,
                None => self.y,
            },
            rotation: match u.rotation {
                Some(v) => v,
                None => self.rotation,
            },
            scale_x: match u.scale_x {
                Some(v) => v,
                None => self.scale_x,
            },
            scale_y: match u.scale_y {
                Some(v) => v,
                None => self.scale_y,
            },
            z_index: match u.z_index {
                Some(v) => v,
                None => self.z_index,
            },
            created_at: self.created_at.clone(),
            text: match &u.text {
                Some(v) => v.clone(),
                None => self.text.clone(),
            },
            element_type: self.element_type.clone(),
            board_id: self.board_id.clone(),
            color: match &u.color {
                Some(v) => v.clone(),
                None => self.color.clone(),
            },
        }
    }
}

/// The device a user is currently logged in from; at most one per user.
#[derive(Debug, PartialEq)]
pub struct Client {
    pub _id: String,
    pub client_id: String,
    pub user_id: String,
    pub device_type: DeviceType,
}

impl Client {
    /// A copy of this client record, equal to it field by field.
    pub fn duplicate(&self) -> (r: Client)
        ensures
            r == *self,
    {
        Client {
            _id: self._id.clone(),
            client_id: self.client_id.clone(),
            user_id: self.user_id.clone(),
            device_type: self.device_type,
        }
    }
}

/// Fields needed to create a client record.
#[derive(Debug, PartialEq)]
pub struct CreateClient {
    pub client_id: String,
    pub user_id: String,
    pub device_type: DeviceType,
}

/// Partial update of a client record.
#[derive(Debug, PartialEq)]
pub struct UpdateClient {
    pub client_id: Option<String>,
    pub device_type: Option<DeviceType>,
}

/// A registered user.
#[derive(Debug, PartialEq)]
pub struct User {
    pub _id: String,
    pub name: String,
    pub email: String,
    pub password: String,
    pub active_client: Option<String>,
}

/// Fields needed to create a user.
#[derive(Debug, PartialEq)]
pub struct CreateUser {
    pub _id: String,
    pub name: String,
    pub email: String,
    pub password: String,
}

/// Partial update of a user.
#[derive(Debug, PartialEq)]
pub struct UpdateUser {
    pub name: Option<String>,
    pub email: Option<String>,
    pub password: Option<String>,
    pub active_client: Option<String>,
}

/// A user's live cursor presence on a board; at most one per user.
#[derive(Debug, PartialEq)]
pub struct ActiveMember {
    pub _id: String,
    pub user_id: String,
    pub board_id: String,
    pub x: i64,
    pub y: i64,
}

impl ActiveMember {
    /// A copy of this active member, equal to it field by field.
    pub fn duplicate(&self) -> (r: ActiveMember)
        ensures
            r == *self,
    {
        ActiveMember {
            _id: self._id.clone(),
            user_id: self.user_id.clone(),
            board_id: self.board_id.clone(),
            x: self.x,
            y: self.y,
        }
    }
}

/// Fields needed to create an active member.
#[derive(Debug, PartialEq)]
pub struct CreateActiveMember {
    pub user_id: String,
    pub board_id: String,
    pub x: i64,
    pub y: i64,
}

/// Partial update of an active member.
#[derive(Debug, PartialEq)]
pub struct UpdateActiveMember {
    pub board_id: Option<String>,
    pub x: Option<i64>,
    pub y: Option<i64>,
}

/// A kind of element that can be placed on a board.
#[derive(Debug, PartialEq)]
pub struct ElementType {
    pub _id: String,
    pub name: String,
    pub path: String,
}

/// Fields needed to create an element type.
#[derive(Debug, PartialEq)]
pub struct CreateElementType {
    pub name: String,
    pub path: String,
}

/// Partial update of an element type.
#[derive(Debug, PartialEq)]
pub struct UpdateElementType {
    pub name: Option<String>,
    pub path: Option<String>,
}

} // verus!
