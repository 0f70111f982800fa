//! The members of a JSON object: what a member of each kind must look
//! like, and the functions that read it.

use crate::json::{json_view, member, text_of, unsigned_of, value_member, Json};
use vstd::prelude::*;

verus! {

/// A count held by a JSON value: a non-negative integer that fits `usize`.
pub open spec fn count_of(json: Json) -> Option<usize> {
    match unsigned_of(json) {
        Some(n) => if n <= usize::MAX {
            Some(n as usize)
        } else {
            None
        },
        None => None,
    }
}

/// A member that must be present and hold a string.
pub open spec fn required_text(json: Json, key: Seq<char>) -> Option<Seq<char>> {
    match member(json, key) {
        Some(inner) => text_of(inner),
        None => None,
    }
}

/// A member that must be present and hold a count.
pub open spec fn required_count(json: Json, key: Seq<char>) -> Option<usize> {
    match member(json, key) {
        Some(inner) => count_of(inner),
        None => None,
    }
}

/// A member that may be absent or `null`, and otherwise must hold a string.
/// The outer `None` stands for a member of another kind.
pub open spec fn optional_text(json: Json, key: Seq<char>) -> Option<Option<Seq<char>>> {
    match member(json, key) {
        None => Some(None),
        Some(Json::Null) => Some(None),
        Some(inner) => match text_of(inner) {
            Some(text) => Some(Some(text)),
            None => None,
        },
    }
}

/// A member that may be absent or `null`, and otherwise must hold a count.
/// The outer `None` stands for a member of another kind.
pub open spec fn optional_count(json: Json, key: Seq<char>) -> Option<Option<usize>> {
    match member(json, key) {
        None => Some(None),
        Some(Json::Null) => Some(None),
        Some(inner) => match count_of(inner) {
            Some(count) => Some(Some(count)),
            None => None,
        },
    }
}

/// Reads the count that a value holds.
pub(crate) fn read_count(value: &serde_json::Value) -> (count: Option<usize>)
    ensures
        count == count_of(json_view(*value)),
{
    match value.as_u64() {
        Some(n) => if n <= usize::MAX as u64 {
            Some(n as usize)
        } else {
            None
        },
        None => None,
    }
}

/// Reads the string that a value holds.
pub(crate) fn read_text(value: &serde_json::Value) -> (text: Option<String>)
    ensures
        text.deep_view() == text_of(json_view(*value)),
{
    match value.as_str() {
        Some(s) => Some(String::from_str(s)),
        None => None,
    }
}

/// Reads a required string member.
pub(crate) fn text_member(value: &serde_json::Value, key: &str) -> (text: Option<String>)
    ensures
        text.deep_view() == required_text(json_view(*value), key@),
{
    match value_member(value, key) {
        Some(inner) => read_text(inner),
        None => None,
    }
}

/// Reads a required count member.
pub(crate) fn count_member(value: &serde_json::Value, key: &str) -> (count: Option<usize>)
    ensures
        count == required_count(json_view(*value), key@),
{
    match value_member(value, key) {
        Some(inner) => read_count(inner),
        None => None,
    }
}

/// Reads an optional string member.
pub(crate) fn optional_text_member(value: &serde_json::Value, key: &str) -> (text: Option<
    Option<String>,
>)
    ensures
        text.deep_view() == optional_text(json_view(*value), key@),
{
    match value_member(value, key) {
        None => Some(None),
        Some(inner) => if inner.is_null() {
            Some(None)
        } else {
            match read_text(inner) {
                Some(text) => Some(Some(text)),
                None => None,
            }
        },
    }
}

/// Reads an optional count member.
pub(crate) fn optional_count_member(value: &serde_json::Value, key: &str) -> (count: Option<
    Option<usize>,
>)
    ensures
        count == optional_count(json_view(*value), key@),
{
    match value_member(value, key) {
        None => Some(None),
        Some(inner) => if inner.is_null() {
            Some(None)
        } else {
            match read_count(inner) {
                Some(count) => Some(Some(count)),
                None => None,
            }
        },
    }
}

} // verus!
