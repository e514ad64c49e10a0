//! Reading JSON text and `serde_json` values into documents.

use crate::extract::opt_view;
use crate::json::{
    distinct_member_keys, entries_view, items_view, lemma_entries_view_dom,
    lemma_entries_view_value, Json, JsonNumber, JsonV,
};
use vstd::prelude::*;

verus! {

/// `serde_json::Value`, of which nothing is seen but what the functions
/// below hand out.
#[verifier::external_type_specification]
#[verifier::external_body]
pub struct ExJsonValue(serde_json::Value);

/// The document that a `serde_json::Value` holds.
pub uninterp spec fn value_document(value: serde_json::Value) -> JsonV;

/// The document that a text holds, as `serde_json::from_str` reads it;
/// nothing where the text is not JSON.
pub uninterp spec fn json_of_text(text: Seq<char>) -> Option<JsonV>;

/// Calls `serde_json::from_str` for a `serde_json::Value`. The contract
/// names what the call reads and claims nothing more of it.
#[verifier::external_body]
fn value_from_text(text: &str) -> (r: Option<serde_json::Value>)
    ensures
        match r {
            Some(value) => json_of_text(text@) == Some(value_document(value)),
            None => json_of_text(text@) is None,
        },
{
    serde_json::from_str::<serde_json::Value>(text).ok()
}

/// Calls `Value::is_null`, which tells whether the value is `Null`.
#[verifier::external_body]
fn value_is_null(value: &serde_json::Value) -> (r: bool)
    ensures
        r == (value_document(*value) is Null),
{
    value.is_null()
}

/// Calls `Value::as_bool`, which hands out the boolean of a `Bool` and
/// nothing for any other value.
#[verifier::external_body]
fn value_as_bool(value: &serde_json::Value) -> (r: Option<bool>)
    ensures
        match r {
            Some(b) => value_document(*value) == JsonV::Bool(b),
            None => !(value_document(*value) is Bool),
        },
{
    value.as_bool()
}

/// Calls `Value::as_str`, which hands out the text of a `String` and
/// nothing for any other value, and copies the text.
#[verifier::external_body]
fn value_as_string(value: &serde_json::Value) -> (r: Option<String>)
    ensures
        match r {
            Some(s) => value_document(*value) == JsonV::Str(s@),
            None => !(value_document(*value) is Str),
        },
{
    value.as_str().map(|s| s.to_string())
}

/// Calls `Value::as_u64`, which hands out the integer of a number that is
/// stored as a non-negative integer, and nothing for any other value.
#[verifier::external_body]
fn value_as_u64(value: &serde_json::Value) -> (r: Option<u64>)
    ensures
        r == match value_document(*value) {
            JsonV::Number(JsonNumber::PosInt(n)) => Some(n),
            _ => None,
        },
{
    value.as_u64()
}

/// Calls `Value::as_i64`, which hands out the integer of a number that is
/// stored as a negative integer, that of one stored as a non-negative
/// integer where it fits, and nothing for any other value.
#[verifier::external_body]
fn value_as_i64(value: &serde_json::Value) -> (r: Option<i64>)
    ensures
        r == match value_document(*value) {
            JsonV::Number(JsonNumber::PosInt(n)) => if n <= 0x7fff_ffff_ffff_ffff {
                Some(n as i64)
            } else {
                None
            },
            JsonV::Number(JsonNumber::NegInt(i)) => Some(i),
            _ => None,
        },
{
    value.as_i64()
}

/// Calls `Value::as_f64`, which hands out a floating-point value for every
/// number, the stored one for a number that is stored as such, and nothing
/// for any other value; the value is handed on by its bit pattern.
#[verifier::external_body]
fn value_float_bits(value: &serde_json::Value) -> (r: Option<u64>)
    ensures
        r is Some <==> value_document(*value) is Number,
        value_document(*value) matches JsonV::Number(JsonNumber::Float(bits)) ==> r == Some(bits),
{
    value.as_f64().map(|x| x.to_bits())
}

/// Calls `Value::as_array`, which hands out the elements of an `Array` and
/// nothing for any other value, and copies the elements.
#[verifier::external_body]
fn value_items(value: &serde_json::Value) -> (r: Option<Vec<serde_json::Value>>)
    ensures
        match r {
            Some(items) => value_document(*value) == JsonV::Array(
                Seq::new(items@.len(), |i: int| value_document(items@[i])),
            ),
            None => !(value_document(*value) is Array),
        },
{
    value.as_array().cloned()
}

/// Calls `Value::as_object`, which hands out the map of an `Object` and
/// nothing for any other value, and copies the entries of the map: each
/// key once, with its value.
#[verifier::external_body]
fn value_members(value: &serde_json::Value) -> (r: Option<Vec<(String, serde_json::Value)>>)
    ensures
        match r {
            Some(members) => {
                &&& value_document(*value) is Object
                &&& value_document(*value)->Object_0.dom().finite()
                &&& forall|i: int, j: int|
                    0 <= i < j < members@.len() ==> members@[i].0@ != members@[j].0@
                &&& forall|i: int|
                    0 <= i < members@.len() ==> value_document(*value)->Object_0.contains_key(
                        #[trigger] members@[i].0@,
                    ) && value_document(*value)->Object_0[members@[i].0@] == value_document(
                        members@[i].1,
                    )
                &&& forall|key: Seq<char>| #[trigger]
                    value_document(*value)->Object_0.contains_key(key) ==> exists|i: int|
                        0 <= i < members@.len() && #[trigger] members@[i].0@ == key
            },
            None => !(value_document(*value) is Object),
        },
{
    value.as_object().map(|map| map.iter().map(|(k, v)| (k.clone(), v.clone())).collect())
}

/// The document of a `serde_json::Value`.
pub fn json_from_value(value: &serde_json::Value) -> (r: Json)
    ensures
        r@ == value_document(*value),
    decreases value_document(*value),
{
    if value_is_null(value) {
        return Json::Null;
    }
    if let Some(b) = value_as_bool(value) {
        return Json::Bool(b);
    }
    if let Some(s) = value_as_string(value) {
        return Json::Str(s);
    }
    if let Some(n) = value_as_u64(value) {
        return Json::Number(JsonNumber::PosInt(n));
    }
    if let Some(i) = value_as_i64(value) {
        return Json::Number(JsonNumber::NegInt(i));
    }
    if let Some(bits) = value_float_bits(value) {
        return Json::Number(JsonNumber::Float(bits));
    }
    if let Some(items) = value_items(value) {
        let mut out: Vec<Json> = Vec::new();
        let mut i: usize = 0;
        while i < items.len()
            invariant
                value_document(*value) == JsonV::Array(
                    Seq::new(items@.len(), |k: int| value_document(items@[k])),
                ),
                i <= items.len(),
                out.len() == i,
                forall|k: int| 0 <= k < i ==> out@[k]@ == value_document(items@[k]),
            decreases items.len() - i,
        {
            proof {
                let document = value_document(*value);
                assert(decreases_to!(document => document->Array_0));
                assert(document->Array_0[i as int] == value_document(items@[i as int]));
                assert(decreases_to!(document->Array_0 => document->Array_0[i as int]));
            }
            let item = json_from_value(&items[i]);
            out.push(item);
            i = i + 1;
        }
        assert(items_view(out@) =~= Seq::new(items@.len(), |k: int| value_document(items@[k])));
        return Json::Array(out);
    }
    if let Some(members) = value_members(value) {
        let mut out: Vec<(String, Json)> = Vec::new();
        let mut i: usize = 0;
        while i < members.len()
            invariant
                value_document(*value) is Object,
                value_document(*value)->Object_0.dom().finite(),
                forall|k: int|
                    0 <= k < members@.len() ==> value_document(*value)->Object_0.contains_key(
                        #[trigger] members@[k].0@,
                    ) && value_document(*value)->Object_0[members@[k].0@] == value_document(
                        members@[k].1,
                    ),
                i <= members.len(),
                out.len() == i,
                forall|k: int|
                    0 <= k < i ==> (#[trigger] out@[k]).0@ == members@[k].0@ && out@[k].1@
                        == value_document(members@[k].1),
            decreases members.len() - i,
        {
            proof {
                let document = value_document(*value);
                let key = members@[i as int].0@;
                assert(document->Object_0.contains_key(key));
                assert(decreases_to!(document => document->Object_0));
                assert(decreases_to!(document->Object_0 => document->Object_0[key]));
            }
            let key = members[i].0.clone();
            let member = json_from_value(&members[i].1);
            out.push((key, member));
            i = i + 1;
        }
        proof {
            let map = value_document(*value)->Object_0;
            assert(distinct_member_keys(out@)) by {
                assert forall|a: int, b: int| 0 <= a < b < out@.len() implies out@[a].0@
                    != out@[b].0@ by {
                    assert(members@[a].0@ != members@[b].0@);
                }
            }
            assert forall|key: Seq<char>|
                entries_view(out@).contains_key(key) <==> map.contains_key(key) by {
                lemma_entries_view_dom(out@, key);
                if entries_view(out@).contains_key(key) {
                    let k = choose|k: int| 0 <= k < out@.len() && #[trigger] out@[k].0@ == key;
                    assert(map.contains_key(members@[k].0@));
                }
                if map.contains_key(key) {
                    let k = choose|k: int|
                        0 <= k < members@.len() && #[trigger] members@[k].0@ == key;
                    assert(out@[k].0@ == key);
                }
            }
            assert forall|key: Seq<char>| entries_view(out@).contains_key(key) implies entries_view(
                out@,
            )[key] == map[key] by {
                lemma_entries_view_dom(out@, key);
                let k = choose|k: int| 0 <= k < out@.len() && #[trigger] out@[k].0@ == key;
                lemma_entries_view_value(out@, k);
                assert(map[members@[k].0@] == value_document(members@[k].1));
            }
            assert(entries_view(out@) =~= map);
        }
        return Json::Object(out);
    }
    proof {
        let document = value_document(*value);
        assert(false);
    }
    Json::Null
}

/// Reads a JSON text; nothing where the text is not JSON.
pub fn parse_json(text: &str) -> (r: Option<Json>)
    ensures
        opt_view(r) == json_of_text(text@),
{
    match value_from_text(text) {
        Some(value) => Some(json_from_value(&value)),
        None => None,
    }
}

} // verus!
