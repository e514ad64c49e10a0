//! The ways in which a value that was read takes the place of a default.

use crate::string_map::StringMap;
use vstd::prelude::*;

verus! {

/// The value of an option, or `default` where it has none.
pub open spec fn or_else<T>(o: Option<T>, default: T) -> T {
    match o {
        Some(t) => t,
        None => default,
    }
}

/// Replaces `target` by the value of `source`, where it has one.
pub fn update_if_some<T>(target: &mut T, source: Option<T>)
    ensures
        *final(target) == match source {
            Some(value) => value,
            None => *old(target),
        },
{
    if let Some(value) = source {
        *target = value;
    }
}

/// Replaces `target` by `source`, where `source` has a value.
pub fn set_if_some<T>(target: &mut Option<T>, source: Option<T>)
    ensures
        *final(target) == if source is Some {
            source
        } else {
            *old(target)
        },
{
    if source.is_some() {
        *target = source;
    }
}

/// Adds the entries of `source` to `target`, where `source` has a value;
/// its entries win over those of `target`.
pub fn extend_if_some(target: &mut StringMap, source: Option<StringMap>)
    ensures
        final(target)@ == match source {
            Some(entries) => old(target)@.union_prefer_right(entries@),
            None => old(target)@,
        },
{
    if let Some(entries) = source {
        target.extend(&entries);
    }
}

/// Replaces `target` by `source`, where `source` is not empty.
pub fn replace_text_if_given(target: &mut String, source: String)
    ensures
        *final(target) == if source@.len() > 0 {
            source
        } else {
            *old(target)
        },
{
    if !source.as_str().is_empty() {
        *target = source;
    }
}

/// Replaces `target` by `source`, where `source` is not empty.
pub fn replace_list_if_given<T>(target: &mut Vec<T>, source: Vec<T>)
    ensures
        *final(target) == if source@.len() > 0 {
            source
        } else {
            *old(target)
        },
{
    if source.len() > 0 {
        *target = source;
    }
}

/// Replaces `target` by `source`, where `source` is not empty.
pub fn replace_map_if_given(target: &mut StringMap, source: StringMap)
    ensures
        final(target)@ == if source@ != Map::<Seq<char>, Seq<char>>::empty() {
            source@
        } else {
            old(target)@
        },
{
    if !source.is_empty() {
        *target = source;
    }
}

} // verus!
