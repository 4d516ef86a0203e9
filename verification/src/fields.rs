//! Typed access to the fields of a decoded request body.

use vstd::prelude::*;
use crate::json::BodyField;
use crate::json::FieldValue;
use crate::json::JsonMember;
use crate::json::JsonVal;
use crate::json::members_view;
use crate::util::clone_string_vec;
use crate::util::str_eq;

verus! {

/// The value of the first member with this key, if any.
pub open spec fn spec_field(ms: Seq<JsonMember>, key: Seq<char>) -> Option<JsonVal>
    decreases ms.len(),
{
    if ms.len() == 0 {
        None
    } else if ms[0].key == key {
        Some(ms[0].value)
    } else {
        spec_field(ms.drop_first(), key)
    }
}

/// Whether the field is present as a string.
pub open spec fn field_is_str(ms: Seq<JsonMember>, key: Seq<char>) -> bool {
    spec_field(ms, key) matches Some(JsonVal::Str(_))
}

/// Whether the field is present as an integer.
pub open spec fn field_is_int(ms: Seq<JsonMember>, key: Seq<char>) -> bool {
    spec_field(ms, key) matches Some(JsonVal::Int(_))
}

/// Whether the field is present as a boolean.
pub open spec fn field_is_bool(ms: Seq<JsonMember>, key: Seq<char>) -> bool {
    spec_field(ms, key) matches Some(JsonVal::Bool(_))
}

/// Whether the field is present as a list of strings.
pub open spec fn field_is_str_list(ms: Seq<JsonMember>, key: Seq<char>) -> bool {
    spec_field(ms, key) matches Some(JsonVal::StrList(_))
}

/// Whether the field is absent, null, or a string: the shapes an optional
/// string field accepts.
pub open spec fn field_is_opt_str(ms: Seq<JsonMember>, key: Seq<char>) -> bool {
    match spec_field(ms, key) {
        None => true,
        Some(JsonVal::Null) => true,
        Some(JsonVal::Str(_)) => true,
        _ => false,
    }
}

/// The index of the first field with this key, if any.
pub fn find_field(body: &Vec<BodyField>, key: &str) -> (r: Option<usize>)
    ensures
        match r {
            Some(i) => i < body@.len() && spec_field(members_view(body@), key@) == Some(
                body@[i as int].value@,
            ),
            None => spec_field(members_view(body@), key@) is None,
        },
{
    let ghost full = members_view(body@);
    proof {
        assert(members_view(body@).skip(0int) =~= members_view(body@));
    }
    let mut i: usize = 0;
    while i < body.len()
        invariant
            i <= body@.len(),
            full == members_view(body@),
            spec_field(full, key@) == spec_field(members_view(body@).skip(i as int), key@),
        decreases body@.len() - i,
    {
        proof {
            assert(members_view(body@).skip(i as int)[0] == body@[i as int]@);
            assert(members_view(body@).skip(i as int).drop_first() =~= members_view(body@).skip(
                i + 1,
            ));
        }
        if str_eq(body[i].key.as_str(), key) {
            return Some(i);
        }
        i = i + 1;
    }
    proof {
        assert(members_view(body@).skip(body@.len() as int).len() == 0);
    }
    None
}

/// The string value of a field; nothing when it is absent or not a
/// string.
pub fn get_str(body: &Vec<BodyField>, key: &str) -> (r: Option<String>)
    ensures
        match r {
            Some(v) => spec_field(members_view(body@), key@) == Some(JsonVal::Str(v@)),
            None => !field_is_str(members_view(body@), key@),
        },
{
    match find_field(body, key) {
        Some(i) => match &body[i].value {
            FieldValue::Str(s) => Some(s.clone()),
            _ => None,
        },
        None => None,
    }
}

/// The integer value of a field; nothing when it is absent or not an
/// integer.
pub fn get_int(body: &Vec<BodyField>, key: &str) -> (r: Option<i64>)
    ensures
        match r {
            Some(v) => spec_field(members_view(body@), key@) == Some(JsonVal::Int(v as int)),
            None => !field_is_int(members_view(body@), key@),
        },
{
    match find_field(body, key) {
        Some(i) => match &body[i].value {
            FieldValue::Int(v) => Some(*v),
            _ => None,
        },
        None => None,
    }
}

/// The boolean value of a field; nothing when it is absent or not a
/// boolean.
pub fn get_bool(body: &Vec<BodyField>, key: &str) -> (r: Option<bool>)
    ensures
        match r {
            Some(v) => spec_field(members_view(body@), key@) == Some(JsonVal::Bool(v)),
            None => !field_is_bool(members_view(body@), key@),
        },
{
    match find_field(body, key) {
        Some(i) => match &body[i].value {
            FieldValue::Bool(v) => Some(*v),
            _ => None,
        },
        None => None,
    }
}

/// The string-list value of a field; nothing when it is absent or not a
/// list of strings.
pub fn get_str_list(body: &Vec<BodyField>, key: &str) -> (r: Option<Vec<String>>)
    ensures
        match r {
            Some(v) => spec_field(members_view(body@), key@) == Some(
                JsonVal::StrList(crate::json::strs_view(v@)),
            ),
            None => !field_is_str_list(members_view(body@), key@),
        },
{
    match find_field(body, key) {
        Some(i) => match &body[i].value {
            FieldValue::StrList(l) => {
                let copy = clone_string_vec(l);
                proof {
                    assert(crate::json::strs_view(copy@) =~= crate::json::strs_view(l@));
                }
                Some(copy)
            },
            _ => None,
        },
        None => None,
    }
}

/// An optional string field: absent or null is an empty value, a string
/// is a present value, anything else is a shape error.
pub fn get_opt_str(body: &Vec<BodyField>, key: &str) -> (r: Option<Option<String>>)
    ensures
        match r {
            Some(Some(v)) => spec_field(members_view(body@), key@) == Some(JsonVal::Str(v@)),
            Some(None) => spec_field(members_view(body@), key@) is None || spec_field(
                members_view(body@),
                key@,
            ) == Some(JsonVal::Null),
            None => !field_is_opt_str(members_view(body@), key@),
        },
{
    match find_field(body, key) {
        Some(i) => match &body[i].value {
            FieldValue::Str(s) => Some(Some(s.clone())),
            FieldValue::Null => Some(None),
            _ => None,
        },
        None => Some(None),
    }
}

/// Whether the field is absent, null, or an integer: the shapes an
/// optional integer field accepts.
pub open spec fn field_is_opt_int(ms: Seq<JsonMember>, key: Seq<char>) -> bool {
    match spec_field(ms, key) {
        None => true,
        Some(JsonVal::Null) => true,
        Some(JsonVal::Int(_)) => true,
        _ => false,
    }
}

/// An optional integer field: absent or null is an empty value, an
/// integer is a present value, anything else is a shape error.
pub fn get_opt_int(body: &Vec<BodyField>, key: &str) -> (r: Option<Option<i64>>)
    ensures
        match r {
            Some(Some(v)) => spec_field(members_view(body@), key@) == Some(JsonVal::Int(v as int)),
            Some(None) => spec_field(members_view(body@), key@) is None || spec_field(
                members_view(body@),
                key@,
            ) == Some(JsonVal::Null),
            None => !field_is_opt_int(members_view(body@), key@),
        },
{
    match find_field(body, key) {
        Some(i) => match &body[i].value {
            FieldValue::Int(v) => Some(Some(*v)),
            FieldValue::Null => Some(None),
            _ => None,
        },
        None => Some(None),
    }
}

} // verus!
