//! The JSON codec this crate relies on, and what is taken on trust about it.
//!
//! Encoding and decoding are done by `serde_json`. Its results are given
//! names here so that the rest of the crate can say exactly which text is
//! sent and which reply is read, without restating JSON itself.

use vstd::prelude::*;

verus! {

/// A decoded JSON document, as `serde_json` holds it.
#[verifier::external_type_specification]
#[verifier::external_body]
pub struct ExValue(serde_json::Value);

/// What `serde_json::to_string` gives for a text: the JSON string literal
/// it writes, quotes and escapes included, or the text of the error it
/// reports.
pub uninterp spec fn json_string(text: Seq<char>) -> Result<Seq<char>, Seq<char>>;

/// What `serde_json::from_slice` gives for a body: the document it reads, or
/// the text of the error it reports.
pub uninterp spec fn json_document(body: Seq<u8>) -> Result<serde_json::Value, Seq<char>>;

/// The member that `serde_json::Value::get` finds under a key.
pub uninterp spec fn json_member(document: serde_json::Value, key: Seq<char>) -> Option<
    serde_json::Value,
>;

/// The text that `serde_json::Value::as_str` finds in a value.
pub uninterp spec fn json_text(value: serde_json::Value) -> Option<Seq<char>>;

/// Calls `serde_json::to_string` on a string slice, and renders the error,
/// where there is one, through its `Display` impl. The outcome is a function
/// of the text alone, and is the one `json_string` names.
#[verifier::external_body]
pub(crate) fn quote(text: &str) -> (quoted: Result<String, String>)
    ensures
        match json_string(text@) {
            Ok(literal) => quoted matches Ok(found) && found@ == literal,
            Err(failure) => quoted matches Err(found) && found@ == failure,
        },
{
    match serde_json::to_string(text) {
        Ok(literal) => Ok(literal),
        Err(failure) => Err(failure.to_string()),
    }
}

/// Calls `serde_json::from_slice` for a `serde_json::Value`, and renders the
/// error, where there is one, through its `Display` impl. The outcome is a
/// function of the bytes alone, and is the one `json_document` names.
#[verifier::external_body]
pub(crate) fn parse(body: &[u8]) -> (parsed: Result<serde_json::Value, String>)
    ensures
        match json_document(body@) {
            Ok(document) => parsed matches Ok(found) && found == document,
            Err(failure) => parsed matches Err(found) && found@ == failure,
        },
{
    match serde_json::from_slice(body) {
        Ok(document) => Ok(document),
        Err(failure) => Err(failure.to_string()),
    }
}

/// Calls `serde_json::Value::get` with a string key: the member of an object
/// under that key, `None` where the value is no object or has no such member.
#[verifier::external_body]
pub(crate) fn member<'a>(document: &'a serde_json::Value, key: &str) -> (found: Option<
    &'a serde_json::Value,
>)
    ensures
        found is Some <==> json_member(*document, key@) is Some,
        found matches Some(value) ==> json_member(*document, key@) == Some(*value),
{
    document.get(key)
}

/// `serde_json::Value::as_str`: the text of a value that is a JSON string,
/// `None` for any other value.
pub assume_specification[ serde_json::Value::as_str ](value: &serde_json::Value) -> (text: Option<
    &str,
>)
    ensures
        text is Some <==> json_text(*value) is Some,
        text matches Some(found) ==> json_text(*value) == Some(found@),
;

} // verus!
