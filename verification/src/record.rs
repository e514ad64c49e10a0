//! Reading records that a document encodes in full. A field that must be
//! there and is missing, or has another shape, makes the reading fail.

use crate::extract::{
    opt_view, parse_section, parse_string_list, parse_string_map, section_of, string_list_of,
    string_map_of, texts, view_of,
};
use crate::json::{Json, JsonV};
use crate::string_map::StringMap;
use vstd::prelude::*;

verus! {

/// The field of a record that has position `index` and name `name`. A
/// record of `arity` fields is encoded as an object of named members, or
/// as an array of the fields in declaration order: the field is the member
/// of that name in an object, the element at that position in an array of
/// `arity` elements.
pub open spec fn record_member(j: JsonV, index: int, name: Seq<char>, arity: int) -> Option<
    JsonV,
> {
    match j {
        JsonV::Object(_) => j.field(name),
        JsonV::Array(items) => if items.len() == arity && 0 <= index < arity {
            Some(items[index])
        } else {
            None
        },
        _ => None,
    }
}

/// Reads the field of a record that has position `index` and name `name`.
pub fn read_record_member<'a>(j: &'a Json, index: usize, name: &str, arity: usize) -> (r: Option<
    &'a Json,
>)
    requires
        index < arity,
    ensures
        match r {
            Some(v) => record_member(j@, index as int, name@, arity as int) == Some(v@),
            None => record_member(j@, index as int, name@, arity as int) is None,
        },
{
    match j {
        Json::Object(_) => j.get(name),
        Json::Array(items) => if items.len() == arity {
            Some(&items[index])
        } else {
            None
        },
        _ => None,
    }
}

/// A field that must be there and be a string.
pub open spec fn required_string(member: Option<JsonV>) -> Option<Seq<char>> {
    match member {
        Some(v) => v.as_str(),
        None => None,
    }
}

/// Reads a field that must be there and be a string.
pub fn read_required_string(member: Option<&Json>) -> (r: Option<String>)
    ensures
        match r {
            Some(s) => required_string(view_of(member)) == Some(s@),
            None => required_string(view_of(member)) is None,
        },
{
    match member {
        Some(v) => match v.as_str() {
            Some(s) => Some(s.to_string()),
            None => None,
        },
        None => None,
    }
}

/// A field that must be there and be a boolean.
pub open spec fn required_bool(member: Option<JsonV>) -> Option<bool> {
    match member {
        Some(v) => v.as_bool(),
        None => None,
    }
}

/// Reads a field that must be there and be a boolean.
pub fn read_required_bool(member: Option<&Json>) -> (r: Option<bool>)
    ensures
        r == required_bool(view_of(member)),
{
    match member {
        Some(v) => v.as_bool(),
        None => None,
    }
}

/// A field that must be there and be an integer of 32 bits.
pub open spec fn required_i32(member: Option<JsonV>) -> Option<i32> {
    match member {
        Some(v) => v.as_i32(),
        None => None,
    }
}

/// Reads a field that must be there and be an integer of 32 bits.
pub fn read_required_i32(member: Option<&Json>) -> (r: Option<i32>)
    ensures
        r == required_i32(view_of(member)),
{
    match member {
        Some(v) => v.as_i32(),
        None => None,
    }
}

/// A field that must be there and be an unsigned integer of 32 bits.
pub open spec fn required_u32(member: Option<JsonV>) -> Option<u32> {
    match member {
        Some(v) => v.as_u32(),
        None => None,
    }
}

/// Reads a field that must be there and be an unsigned integer of 32 bits.
pub fn read_required_u32(member: Option<&Json>) -> (r: Option<u32>)
    ensures
        r == required_u32(view_of(member)),
{
    match member {
        Some(v) => v.as_u32(),
        None => None,
    }
}

/// A field that must be there and be a list of strings.
pub open spec fn required_string_list(member: Option<JsonV>) -> Option<Seq<Seq<char>>> {
    match member {
        Some(v) => string_list_of(v),
        None => None,
    }
}

/// Reads a field that must be there and be a list of strings.
pub fn read_required_string_list(member: Option<&Json>) -> (r: Option<Vec<String>>)
    ensures
        match r {
            Some(v) => required_string_list(view_of(member)) == Some(texts(v@)),
            None => required_string_list(view_of(member)) is None,
        },
{
    match member {
        Some(v) => parse_string_list(v),
        None => None,
    }
}

/// A field that must be there and be a string-to-string mapping.
pub open spec fn required_string_map(member: Option<JsonV>) -> Option<Map<Seq<char>, Seq<char>>> {
    match member {
        Some(v) => string_map_of(v),
        None => None,
    }
}

/// Reads a field that must be there and be a string-to-string mapping.
pub fn read_required_string_map(member: Option<&Json>) -> (r: Option<StringMap>)
    ensures
        match r {
            Some(m) => required_string_map(view_of(member)) == Some(m@),
            None => required_string_map(view_of(member)) is None,
        },
{
    match member {
        Some(v) => parse_string_map(v),
        None => None,
    }
}

/// A field that must be there and read with `parse`.
pub open spec fn required_member<T>(
    member: Option<JsonV>,
    parse: spec_fn(JsonV) -> Option<T>,
) -> Option<T> {
    match member {
        Some(v) => parse(v),
        None => None,
    }
}

/// Whether a field that may be left out is left out: it is missing or null.
pub open spec fn is_left_out(member: Option<JsonV>) -> bool {
    match member {
        Some(v) => v is Null,
        None => true,
    }
}

/// Whether a field that may be left out is left out.
pub fn member_is_left_out(member: Option<&Json>) -> (r: bool)
    ensures
        r == is_left_out(view_of(member)),
{
    match member {
        Some(v) => v.is_null(),
        None => true,
    }
}

/// A field that may be left out: nothing where it is missing or null, else
/// what `parse` reads, and a failure where `parse` fails.
pub open spec fn optional_member<T>(
    member: Option<JsonV>,
    parse: spec_fn(JsonV) -> Option<T>,
) -> Option<Option<T>> {
    if is_left_out(member) {
        Some(None)
    } else {
        match parse(member->Some_0) {
            Some(t) => Some(Some(t)),
            None => None,
        }
    }
}

/// The two-level value of a field that was read and may be left out.
pub open spec fn opt_opt_view<T: View>(o: Option<Option<T>>) -> Option<Option<T::V>> {
    match o {
        Some(inner) => Some(opt_view(inner)),
        None => None,
    }
}

/// Reads a section that may be left out.
pub fn read_optional_section(member: Option<&Json>) -> (r: Option<Option<Json>>)
    ensures
        opt_opt_view(r) == optional_member(view_of(member), |x: JsonV| section_of(x)),
{
    if member_is_left_out(member) {
        Some(None)
    } else {
        match parse_section(member.unwrap()) {
            Some(section) => Some(Some(section)),
            None => None,
        }
    }
}

} // verus!
