//! Reading JSON documents: what the library needs to know of a parsed
//! document, stated over the same model as the values it builds.

use vstd::prelude::*;
use crate::im::http::JsonView;

verus! {

/// `serde_json::Value`: a parsed JSON value. Nothing of its inside is
/// known but through `value_model`.
#[verifier::external_type_specification]
#[verifier::external_body]
pub struct ExJsonValue(serde_json::Value);

/// What a parsed value holds. The members of an object have distinct keys.
pub uninterp spec fn value_model(v: serde_json::Value) -> JsonView;

/// The value that a text parses to, where it is a JSON document.
pub uninterp spec fn parsed_json(text: Seq<char>) -> Option<JsonView>;

/// The member `key` of an object; nothing for a missing key and for a value
/// that is no object.
pub open spec fn object_member(doc: JsonView, key: Seq<char>) -> Option<JsonView> {
    match doc {
        JsonView::Object(members) => {
            if exists|i: int| 0 <= i < members.len() && #[trigger] members[i].0 == key {
                Some(members[choose|i: int| 0 <= i < members.len() && #[trigger] members[i].0 == key].1)
            } else {
                None
            }
        },
        _ => None,
    }
}

/// The text of a JSON string.
pub open spec fn text_of(value: JsonView) -> Option<Seq<char>> {
    match value {
        JsonView::Text(s) => Some(s),
        _ => None,
    }
}

/// The whole number of a JSON number, where it fits `i64`.
pub open spec fn i64_of(value: JsonView) -> Option<i64> {
    match value {
        JsonView::Number(n) => if i64::MIN <= n <= i64::MAX {
            Some(n as i64)
        } else {
            None
        },
        _ => None,
    }
}

/// The whole number of a JSON number, where it fits `u64`.
pub open spec fn u64_of(value: JsonView) -> Option<u64> {
    match value {
        JsonView::Number(n) => if 0 <= n <= u64::MAX {
            Some(n as u64)
        } else {
            None
        },
        _ => None,
    }
}

/// `serde_json::from_str` at `Value`: the parsed document, or nothing where
/// the text is not JSON.
#[verifier::external_body]
pub(crate) fn parse(text: &str) -> (r: Option<serde_json::Value>)
    ensures
        match r {
            Some(v) => parsed_json(text@) == Some(value_model(v)),
            None => parsed_json(text@) is None,
        },
{
    serde_json::from_str::<serde_json::Value>(text).ok()
}

/// `Value::get` with a string key: the member of an object under that key.
#[verifier::external_body]
pub(crate) fn member<'a>(value: &'a serde_json::Value, key: &str) -> (r: Option<&'a serde_json::Value>)
    ensures
        match r {
            Some(m) => object_member(value_model(*value), key@) == Some(value_model(*m)),
            None => object_member(value_model(*value), key@) is None,
        },
{
    value.get(key)
}

/// `Value::as_str`: the text of a string, nothing for any other value.
pub assume_specification<'a>[ serde_json::Value::as_str ](value: &'a serde_json::Value) -> (r: Option<
    &'a str,
>)
    ensures
        match r {
            Some(s) => text_of(value_model(*value)) == Some(s@),
            None => text_of(value_model(*value)) is None,
        },
;

/// `Value::as_i64`: a whole number that fits `i64`, nothing for any other
/// value.
pub assume_specification[ serde_json::Value::as_i64 ](value: &serde_json::Value) -> (r: Option<i64>)
    ensures
        r == i64_of(value_model(*value)),
;

/// `Value::as_u64`: a whole number that fits `u64`, nothing for any other
/// value.
pub assume_specification[ serde_json::Value::as_u64 ](value: &serde_json::Value) -> (r: Option<u64>)
    ensures
        r == u64_of(value_model(*value)),
;

/// `Value::is_null`.
pub assume_specification[ serde_json::Value::is_null ](value: &serde_json::Value) -> (r: bool)
    ensures
        r == (value_model(*value) is Null),
;

} // verus!
