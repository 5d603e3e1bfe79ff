//! JSON text, read and written through `serde_json`.
//!
//! Nothing in this file is proved: each item states what the named
//! `serde_json` function does, and the rest of the library builds on that.

use vstd::prelude::*;
use crate::query::text_of;

verus! {

#[verifier::external_type_specification]
#[verifier::external_body]
pub struct ExJsonValue(serde_json::Value);

#[verifier::external_type_specification]
#[verifier::external_body]
pub struct ExJsonError(serde_json::Error);

/// The JSON string literal, quotes and escapes included, that
/// `serde_json::to_string` writes for a string.
pub uninterp spec fn json_string_literal(text: Seq<char>) -> Seq<char>;

/// The members of a JSON object whose values are strings, by name. A value
/// that is not an object has none.
pub uninterp spec fn json_text_members(value: serde_json::Value) -> Map<Seq<char>, Seq<char>>;

/// The string-valued members of the document that `serde_json::from_slice`
/// reads from `bytes`, or `None` where it reports an error.
pub uninterp spec fn json_parsed_members(bytes: Seq<u8>) -> Option<Map<Seq<char>, Seq<char>>>;

/// Calls `serde_json::to_string` on a string.
///
/// Claims that the result is the JSON string literal for `text`, and that the
/// call succeeds: a string is written straight into a byte vector, which has
/// no failing path.
#[verifier::external_body]
pub(crate) fn encode_string(text: &str) -> (r: Result<String, serde_json::Error>)
    ensures
        r is Ok,
        r matches Ok(literal) ==> literal@ == json_string_literal(text@),
{
    serde_json::to_string(text)
}

/// Calls `serde_json::from_slice` for a `serde_json::Value`.
///
/// Claims only that the outcome is a function of the bytes: an error exactly
/// where `json_parsed_members` is `None`, and otherwise a value whose string
/// members are the ones it names.
#[verifier::external_body]
pub(crate) fn parse_document(bytes: &[u8]) -> (r: Result<serde_json::Value, serde_json::Error>)
    ensures
        match r {
            Ok(value) => json_parsed_members(bytes@) == Some(json_text_members(value)),
            Err(_) => json_parsed_members(bytes@) is None,
        },
{
    serde_json::from_slice(bytes)
}

/// Calls `serde_json::Value::get` with a member name and keeps the result
/// where it is a string.
///
/// Claims that the result is the string member `name` of `value`, and `None`
/// where the value has no such member or the member is not a string.
#[verifier::external_body]
pub(crate) fn text_member(value: &serde_json::Value, name: &str) -> (r: Option<String>)
    ensures
        text_of(r) == (if json_text_members(*value).contains_key(name@) {
            Some(json_text_members(*value)[name@])
        } else {
            None
        }),
{
    match value.get(name) {
        Some(serde_json::Value::String(text)) => Some(text.clone()),
        _ => None,
    }
}

} // verus!
