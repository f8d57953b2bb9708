//! Reading JSON documents through `serde_json`.
//!
//! A parsed value is opaque to the proofs. What they know of it is its compact
//! text, `json_text`, and that looking up a member or an element gives a value
//! whose text depends on the text of the value looked into and on the key.

use vstd::prelude::*;

verus! {

/// `serde_json::Value`, a parsed JSON value; nothing is known of its inside.
#[verifier::external_type_specification]
#[verifier::external_body]
pub struct ExJsonValue(serde_json::Value);

/// `serde_json::Error`, the reason why bytes are no JSON document.
#[verifier::external_type_specification]
#[verifier::external_body]
pub struct ExJsonError(serde_json::Error);

/// The compact JSON text of a value, as `serde_json` prints it.
pub uninterp spec fn json_text(value: serde_json::Value) -> Seq<char>;

/// The compact text of the document that `bytes` hold, if they hold one.
pub uninterp spec fn parsed_json(bytes: Seq<u8>) -> Option<Seq<char>>;

/// The compact text of the member `key` of the value whose text is `document`.
pub uninterp spec fn json_member_text(document: Seq<char>, key: Seq<char>) -> Seq<char>;

/// The compact text of the element `index` of the value whose text is `document`.
pub uninterp spec fn json_element_text(document: Seq<char>, index: nat) -> Seq<char>;

/// The text that a value holds, if the value whose compact text is
/// `document` is a string.
pub uninterp spec fn json_string_of(document: Seq<char>) -> Option<Seq<char>>;

/// The number that a value holds, if the value whose compact text is
/// `document` is an integer that fits 64 bits without a sign.
pub uninterp spec fn json_u64_of(document: Seq<char>) -> Option<u64>;

/// The truth value that a value holds, if the value whose compact text is
/// `document` is one: the two print as `true` and `false`, and nothing else
/// prints so.
pub open spec fn json_bool_of(document: Seq<char>) -> Option<bool> {
    if document == "true"@ {
        Some(true)
    } else if document == "false"@ {
        Some(false)
    } else {
        None
    }
}

/// `serde_json::from_slice`, asked for a `Value`: whether the bytes parse, and
/// to what, depends on the bytes alone.
#[verifier::external_body]
pub(crate) fn parse_json(bytes: &[u8]) -> (r: Result<serde_json::Value, serde_json::Error>)
    ensures
        match r {
            Ok(value) => parsed_json(bytes@) == Some(json_text(value)),
            Err(_) => parsed_json(bytes@) is None,
        },
{
    serde_json::from_slice::<serde_json::Value>(bytes)
}

/// Indexing a `Value` by a string: the member of that name, or `null` where
/// the value is no object or has no such member. It never panics.
#[verifier::external_body]
pub(crate) fn json_member<'a>(value: &'a serde_json::Value, key: &str) -> (r: &'a serde_json::Value)
    ensures
        json_text(*r) == json_member_text(json_text(*value), key@),
{
    &value[key]
}

/// Indexing a `Value` by a number: the element at that place, or `null` where
/// the value is no array or is too short. It never panics.
#[verifier::external_body]
pub(crate) fn json_element(value: &serde_json::Value, index: usize) -> (r: &serde_json::Value)
    ensures
        json_text(*r) == json_element_text(json_text(*value), index as nat),
{
    &value[index]
}

/// `Value::to_string`: the compact JSON text of the value.
#[verifier::external_body]
pub(crate) fn json_render(value: &serde_json::Value) -> (r: String)
    ensures
        r@ == json_text(*value),
{
    value.to_string()
}

/// `Value::as_str`: the text of a string value, and nothing for any other
/// value.
#[verifier::external_body]
pub(crate) fn json_as_string(value: &serde_json::Value) -> (r: Option<String>)
    ensures
        r.deep_view() == json_string_of(json_text(*value)),
{
    value.as_str().map(str::to_owned)
}

/// `Value::as_u64`: the number of an integer value that fits, and nothing
/// for any other value.
#[verifier::external_body]
pub(crate) fn json_as_u64(value: &serde_json::Value) -> (r: Option<u64>)
    ensures
        r == json_u64_of(json_text(*value)),
{
    value.as_u64()
}

/// `Value::as_bool`: the truth value of a Boolean value, and nothing for any
/// other value.
#[verifier::external_body]
pub(crate) fn json_as_bool(value: &serde_json::Value) -> (r: Option<bool>)
    ensures
        r == json_bool_of(json_text(*value)),
{
    value.as_bool()
}

} // verus!
