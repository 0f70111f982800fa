//! JSON documents: their mathematical content, and the `serde_json`
//! operations through which the library reads them.
//!
//! Everything below the model is trusted: Verus takes these contracts as
//! given. Each states what the `serde_json` item does to a
//! `serde_json::Value`, in terms of the value's content.

use vstd::prelude::*;

verus! {

/// A JSON number: a non-negative integer, a negative integer, or a finite
/// binary floating-point number given by its 64 bits.
pub enum JsonNumber {
    Unsigned(u64),
    Negative(i64),
    Real(u64),
}

/// The content of a JSON document. An object is a map: a key occurs once,
/// and the order of the members does not count.
pub enum Json {
    Null,
    Bool(bool),
    Number(JsonNumber),
    Text(Seq<char>),
    Array(Seq<Json>),
    Object(Map<Seq<char>, Json>),
}

/// The member of an object under a key; `None` for a missing key and for
/// anything that is not an object.
pub open spec fn member(json: Json, key: Seq<char>) -> Option<Json> {
    match json {
        Json::Object(members) => if members.contains_key(key) {
            Some(members[key])
        } else {
            None
        },
        _ => None,
    }
}

/// The text of a JSON string; `None` for anything else.
pub open spec fn text_of(json: Json) -> Option<Seq<char>> {
    match json {
        Json::Text(text) => Some(text),
        _ => None,
    }
}

/// The value of a JSON number that is a non-negative integer; `None` for
/// anything else.
pub open spec fn unsigned_of(json: Json) -> Option<u64> {
    match json {
        Json::Number(JsonNumber::Unsigned(n)) => Some(n),
        _ => None,
    }
}

/// The items of a JSON array; `None` for anything else.
pub open spec fn items_of(json: Json) -> Option<Seq<Json>> {
    match json {
        Json::Array(items) => Some(items),
        _ => None,
    }
}

/// `serde_json::Value`, a parsed JSON document. Verus does not look inside.
#[verifier::external_type_specification]
#[verifier::external_body]
pub struct ExValue(serde_json::Value);

/// `serde_json::Error`, the reason a text could not be parsed. Verus does
/// not look inside.
#[verifier::external_type_specification]
#[verifier::external_body]
pub struct ExJsonError(serde_json::Error);

/// The content of a `serde_json::Value`.
pub uninterp spec fn json_view(value: serde_json::Value) -> Json;

/// The content of the JSON document that `serde_json` reads from a text, or
/// `None` when it reads none: when the text is not one JSON document.
pub uninterp spec fn parsed_json(text: Seq<char>) -> Option<Json>;

/// Parses a text as one JSON document.
///
/// Trusted: calls `serde_json::from_str` for a `Value`. Whether it succeeds
/// and what the value then holds depends on the text alone; `parsed_json`
/// is the name of that result.
#[verifier::external_body]
pub(crate) fn parse_value(text: &str) -> (parsed: Result<serde_json::Value, serde_json::Error>)
    ensures
        match parsed {
            Ok(value) => parsed_json(text@) == Some(json_view(value)),
            Err(_) => parsed_json(text@) is None,
        },
{
    serde_json::from_str::<serde_json::Value>(text)
}

/// Looks up the member of an object under `key`.
///
/// Trusted: calls `serde_json::Value::get` with a string key, which gives
/// the member under that key when the value is an object that has one, and
/// `None` otherwise.
#[verifier::external_body]
pub(crate) fn value_member<'a>(value: &'a serde_json::Value, key: &str) -> (found: Option<
    &'a serde_json::Value,
>)
    ensures
        match found {
            Some(inner) => member(json_view(*value), key@) == Some(json_view(*inner)),
            None => member(json_view(*value), key@) is None,
        },
{
    value.get(key)
}

/// `serde_json::Value::as_str` gives the text of a string and `None` for
/// every other value.
pub assume_specification<'a>[ serde_json::Value::as_str ](value: &'a serde_json::Value) -> (text:
    Option<&'a str>)
    ensures
        match text {
            Some(s) => text_of(json_view(*value)) == Some(s@),
            None => text_of(json_view(*value)) is None,
        },
;

/// `serde_json::Value::as_u64` gives the value of a number that is a
/// non-negative integer and `None` for every other value.
pub assume_specification[ serde_json::Value::as_u64 ](value: &serde_json::Value) -> (number:
    Option<u64>)
    ensures
        number == unsigned_of(json_view(*value)),
;

/// `serde_json::Value::is_null` tells whether the value is `null`.
pub assume_specification[ serde_json::Value::is_null ](value: &serde_json::Value) -> (null: bool)
    ensures
        null == (json_view(*value) is Null),
;

/// `serde_json::Value::is_object` tells whether the value is an object.
pub assume_specification[ serde_json::Value::is_object ](value: &serde_json::Value) -> (object:
    bool)
    ensures
        object == (json_view(*value) is Object),
;

/// `serde_json::Value::as_array` gives the items of an array, in order, and
/// `None` for every other value.
pub assume_specification<'a>[ serde_json::Value::as_array ](value: &'a serde_json::Value) -> (items:
    Option<&'a Vec<serde_json::Value>>)
    ensures
        match items {
            Some(list) => items_of(json_view(*value)) == Some(
                list@.map_values(|item: serde_json::Value| json_view(item)),
            ),
            None => items_of(json_view(*value)) is None,
        },
;

} // verus!
