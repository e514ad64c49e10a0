//! Typed extraction from JSON objects. Extraction never fails: a member
//! that is missing and a member of another shape are both absent.

use crate::json::{
    entries_view, lemma_tail_view_persists, lemma_tail_view_whole, tail_view, Json, JsonV,
};
use crate::string_map::StringMap;
use vstd::prelude::*;

verus! {

/// The views of a list of strings.
pub open spec fn texts(items: Seq<String>) -> Seq<Seq<char>> {
    Seq::new(items.len(), |i: int| items[i]@)
}

/// The views of a list with one more string are the views of the list
/// with that of the string.
pub proof fn lemma_texts_push(items: Seq<String>, item: String)
    ensures
        texts(items.push(item)) == texts(items).push(item@),
{
    assert(texts(items.push(item)) =~= texts(items).push(item@));
}

/// The value of a record that may be absent.
pub open spec fn opt_view<T: View>(o: Option<T>) -> Option<T::V> {
    match o {
        Some(t) => Some(t@),
        None => None,
    }
}

/// The value of a document that may be absent.
pub open spec fn view_of(member: Option<&Json>) -> Option<JsonV> {
    match member {
        Some(v) => Some(v@),
        None => None,
    }
}

/// The member stored under `key`, whatever its shape.
pub fn extract_value<'a>(map: &'a Json, key: &str) -> (r: Option<&'a Json>)
    ensures
        match r {
            Some(v) => map@.field(key@) == Some(v@),
            None => map@.field(key@) is None,
        },
{
    map.get(key)
}

/// The string stored under `key`.
pub open spec fn string_member(obj: JsonV, key: Seq<char>) -> Option<Seq<char>> {
    match obj.field(key) {
        Some(v) => v.as_str(),
        None => None,
    }
}

/// The string stored under `key`; nothing where the member is missing or
/// no string.
pub fn extract_string(map: &Json, key: &str) -> (r: Option<String>)
    ensures
        match r {
            Some(s) => string_member(map@, key@) == Some(s@),
            None => string_member(map@, key@) is None,
        },
{
    match map.get(key) {
        Some(v) => match v.as_str() {
            Some(s) => Some(s.to_string()),
            None => None,
        },
        None => None,
    }
}

/// The unsigned integer of 32 bits stored under `key`. A number that is
/// negative, not whole, or greater than `0xffff_ffff` is none.
pub open spec fn u32_member(obj: JsonV, key: Seq<char>) -> Option<u32> {
    match obj.field(key) {
        Some(v) => v.as_u32(),
        None => None,
    }
}

/// The unsigned integer of 32 bits stored under `key`; nothing where the
/// member is missing, is no unsigned integer, or does not fit 32 bits.
pub fn extract_u32(map: &Json, key: &str) -> (r: Option<u32>)
    ensures
        r == u32_member(map@, key@),
{
    match map.get(key) {
        Some(v) => v.as_u32(),
        None => None,
    }
}

/// The boolean stored under `key`.
pub open spec fn bool_member(obj: JsonV, key: Seq<char>) -> Option<bool> {
    match obj.field(key) {
        Some(v) => v.as_bool(),
        None => None,
    }
}

/// The boolean stored under `key`; nothing where the member is missing or
/// no boolean.
pub fn extract_bool(map: &Json, key: &str) -> (r: Option<bool>)
    ensures
        r == bool_member(map@, key@),
{
    match map.get(key) {
        Some(v) => v.as_bool(),
        None => None,
    }
}

/// The object stored under `key`.
pub open spec fn object_member(obj: JsonV, key: Seq<char>) -> Option<JsonV> {
    match obj.field(key) {
        Some(v) => if v is Object {
            Some(v)
        } else {
            None
        },
        None => None,
    }
}

/// The object stored under `key`; nothing where the member is missing or
/// no object.
pub fn extract_map<'a>(map: &'a Json, key: &str) -> (r: Option<&'a Json>)
    ensures
        match r {
            Some(v) => object_member(map@, key@) == Some(v@),
            None => object_member(map@, key@) is None,
        },
{
    match map.get(key) {
        Some(v) => if v.is_object() {
            Some(v)
        } else {
            None
        },
        None => None,
    }
}

/// The member stored under `key`, read with `parse`.
pub open spec fn typed_member<T>(
    map: JsonV,
    key: Seq<char>,
    parse: spec_fn(JsonV) -> Option<T>,
) -> Option<T> {
    match map.field(key) {
        Some(v) => parse(v),
        None => None,
    }
}

/// The list of strings that a document is: an array whose elements are all
/// strings.
pub open spec fn string_list_of(j: JsonV) -> Option<Seq<Seq<char>>> {
    match j {
        JsonV::Array(items) => if forall|i: int|
            0 <= i < items.len() ==> (#[trigger] items[i]) is Str {
            Some(Seq::new(items.len(), |i: int| items[i]->Str_0))
        } else {
            None
        },
        _ => None,
    }
}

/// Reads a document as a list of strings.
pub fn parse_string_list(j: &Json) -> (r: Option<Vec<String>>)
    ensures
        match r {
            Some(v) => string_list_of(j@) == Some(texts(v@)),
            None => string_list_of(j@) is None,
        },
{
    match j {
        Json::Array(items) => {
            let mut out: Vec<String> = Vec::new();
            let mut i: usize = 0;
            while i < items.len()
                invariant
                    j@ == JsonV::Array(crate::json::items_view(items@)),
                    i <= items.len(),
                    out.len() == i,
                    forall|k: int| 0 <= k < i ==> items@[k]@ == JsonV::Str(#[trigger] out@[k]@),
                decreases items.len() - i,
            {
                match items[i].as_str() {
                    Some(s) => {
                        out.push(s.to_string());
                    },
                    None => {
                        assert(!(j@->Array_0[i as int] is Str));
                        return None;
                    },
                }
                i = i + 1;
            }
            proof {
                let views = j@->Array_0;
                assert forall|k: int| 0 <= k < views.len() implies (#[trigger] views[k]) is Str by {
                    assert(items@[k]@ == JsonV::Str(out@[k]@));
                }
                assert(texts(out@) =~= Seq::new(views.len(), |k: int| views[k]->Str_0)) by {
                    assert forall|k: int| 0 <= k < views.len() implies texts(out@)[k]
                        == views[k]->Str_0 by {
                        assert(items@[k]@ == JsonV::Str(out@[k]@));
                    }
                }
            }
            Some(out)
        },
        _ => None,
    }
}

/// Reads the member stored under `key` as a list of strings.
pub fn parse_typed_string_list(map: &Json, key: &str) -> (r: Option<Vec<String>>)
    ensures
        match r {
            Some(v) => typed_member(map@, key@, |x: JsonV| string_list_of(x)) == Some(texts(v@)),
            None => typed_member(map@, key@, |x: JsonV| string_list_of(x)) is None,
        },
{
    match map.get(key) {
        Some(v) => parse_string_list(v),
        None => None,
    }
}

/// The string-to-string mapping that a document is: an object whose
/// members are all strings.
pub open spec fn string_map_of(j: JsonV) -> Option<Map<Seq<char>, Seq<char>>> {
    match j {
        JsonV::Object(m) => if forall|k: Seq<char>| m.contains_key(k) ==> (#[trigger] m[k]) is Str {
            Some(Map::new(|k: Seq<char>| m.contains_key(k), |k: Seq<char>| m[k]->Str_0))
        } else {
            None
        },
        _ => None,
    }
}

/// Reads a document as a string-to-string mapping.
pub fn parse_string_map(j: &Json) -> (r: Option<StringMap>)
    ensures
        match r {
            Some(m) => string_map_of(j@) == Some(m@),
            None => string_map_of(j@) is None,
        },
{
    match j {
        Json::Object(entries) => {
            let mut out = StringMap::new();
            let mut i: usize = entries.len();
            while i > 0
                invariant
                    j@ == JsonV::Object(entries_view(entries@)),
                    i <= entries.len(),
                    forall|k: Seq<char>|
                        out@.contains_key(k) <==> tail_view(entries@, i as int).contains_key(k),
                    forall|k: Seq<char>| #[trigger]
                        out@.contains_key(k) ==> tail_view(entries@, i as int)[k] == JsonV::Str(
                            out@[k],
                        ),
                decreases i,
            {
                i = i - 1;
                let key = &entries[i].0;
                if !out.contains_key(key.as_str()) {
                    match entries[i].1.as_str() {
                        Some(s) => {
                            out.insert(key.clone(), s.to_string());
                        },
                        None => {
                            proof {
                                lemma_tail_view_persists(entries@, i as int, 0, key@);
                                lemma_tail_view_whole(entries@);
                                assert(!(j@->Object_0[key@] is Str));
                            }
                            return None;
                        },
                    }
                }
            }
            proof {
                lemma_tail_view_whole(entries@);
                let m = j@->Object_0;
                assert forall|k: Seq<char>| m.contains_key(k) implies (#[trigger] m[k]) is Str by {
                    assert(out@.contains_key(k));
                }
                assert(out@ =~= Map::new(
                    |k: Seq<char>| m.contains_key(k),
                    |k: Seq<char>| m[k]->Str_0,
                ));
            }
            Some(out)
        },
        _ => None,
    }
}

/// Reads the member stored under `key` as a string-to-string mapping.
pub fn parse_typed_string_map(map: &Json, key: &str) -> (r: Option<StringMap>)
    ensures
        opt_view(r) == typed_member(map@, key@, |x: JsonV| string_map_of(x)),
{
    match map.get(key) {
        Some(v) => parse_string_map(v),
        None => None,
    }
}

/// A platform section or a descriptor: any object, taken as it is.
pub open spec fn section_of(j: JsonV) -> Option<JsonV> {
    if j is Object {
        Some(j)
    } else {
        None
    }
}

/// Reads a document as a section: a copy of it where it is an object.
pub fn parse_section(j: &Json) -> (r: Option<Json>)
    ensures
        match r {
            Some(s) => section_of(j@) == Some(s@),
            None => section_of(j@) is None,
        },
{
    if j.is_object() {
        Some(j.clone())
    } else {
        None
    }
}

/// Reads the member stored under `key` as a section.
pub fn parse_typed_section(map: &Json, key: &str) -> (r: Option<Json>)
    ensures
        opt_view(r) == typed_member(map@, key@, |x: JsonV| section_of(x)),
{
    match map.get(key) {
        Some(v) => parse_section(v),
        None => None,
    }
}

/// The list that a document is: an array whose elements all read as items.
pub open spec fn list_of<T>(j: JsonV, item: spec_fn(JsonV) -> Option<T>) -> Option<Seq<T>> {
    match j {
        JsonV::Array(items) => if forall|i: int|
            0 <= i < items.len() ==> (#[trigger] item(items[i])) is Some {
            Some(Seq::new(items.len(), |i: int| item(items[i])->Some_0))
        } else {
            None
        },
        _ => None,
    }
}

/// Reads a document as a list of sections.
pub fn parse_section_list(j: &Json) -> (r: Option<Vec<Json>>)
    ensures
        match r {
            Some(v) => list_of(j@, |x: JsonV| section_of(x)) == Some(crate::json::items_view(v@)),
            None => list_of(j@, |x: JsonV| section_of(x)) is None,
        },
{
    match j {
        Json::Array(items) => {
            let ghost item = |x: JsonV| section_of(x);
            let mut out: Vec<Json> = Vec::new();
            let mut i: usize = 0;
            while i < items.len()
                invariant
                    j@ == JsonV::Array(crate::json::items_view(items@)),
                    item == (|x: JsonV| section_of(x)),
                    i <= items.len(),
                    out.len() == i,
                    forall|k: int| 0 <= k < i ==> item(items@[k]@) == Some(#[trigger] out@[k]@),
                decreases items.len() - i,
            {
                match parse_section(&items[i]) {
                    Some(s) => {
                        out.push(s);
                    },
                    None => {
                        assert(item(j@->Array_0[i as int]) is None);
                        return None;
                    },
                }
                i = i + 1;
            }
            proof {
                let views = j@->Array_0;
                assert forall|k: int| 0 <= k < views.len() implies (#[trigger] item(
                    views[k],
                )) is Some by {
                    assert(item(items@[k]@) == Some(out@[k]@));
                }
                assert(crate::json::items_view(out@) =~= Seq::new(
                    views.len(),
                    |k: int| item(views[k])->Some_0,
                )) by {
                    assert forall|k: int| 0 <= k < views.len() implies crate::json::items_view(
                        out@,
                    )[k] == item(views[k])->Some_0 by {
                        assert(item(items@[k]@) == Some(out@[k]@));
                    }
                }
            }
            Some(out)
        },
        _ => None,
    }
}

/// Reads the member stored under `key` as a list of sections.
pub fn parse_typed_section_list(map: &Json, key: &str) -> (r: Option<Vec<Json>>)
    ensures
        match r {
            Some(v) => typed_member(map@, key@, |x: JsonV| list_of(x, |y: JsonV| section_of(y)))
                == Some(crate::json::items_view(v@)),
            None => typed_member(map@, key@, |x: JsonV| list_of(x, |y: JsonV| section_of(y)))
                is None,
        },
{
    match map.get(key) {
        Some(v) => parse_section_list(v),
        None => None,
    }
}

} // verus!
