//! The part of `serde_json` that the library rests on.
//!
//! Nothing in this file is proved. Each item states what the outside
//! function does, as its source shows it, and the rest of the library is
//! verified against these statements.

use vstd::prelude::*;

verus! {

/// `serde_json::Value`: a parsed JSON document. Opaque to the verifier.
#[verifier::external_type_specification]
#[verifier::external_body]
pub struct ExValue(serde_json::Value);

/// `serde_json::Error`: why a text is not JSON. Opaque to the verifier.
#[verifier::external_type_specification]
#[verifier::external_body]
pub struct ExError(serde_json::Error);

/// What a document holds for this library: where it is an object, each member
/// of it whose value is a string, by the member's name; nothing where it is
/// anything else.
pub uninterp spec fn text_members(document: serde_json::Value) -> Map<Seq<char>, Seq<char>>;

/// The text members of the document that `body` is the JSON text of, or
/// `None` where `body` is not the JSON text of one document.
pub uninterp spec fn document_members(body: Seq<u8>) -> Option<Map<Seq<char>, Seq<char>>>;

/// `serde_json::from_slice` at the type `serde_json::Value`.
///
/// Claimed: the outcome is a function of the bytes alone, which
/// `document_members` names. On success the text members of the `Value` are
/// that function's result; an error comes exactly where it is `None`.
#[verifier::external_body]
pub(crate) fn parse_document(body: &[u8]) -> (parsed: Result<serde_json::Value, serde_json::Error>)
    ensures
        match parsed {
            Ok(document) => document_members(body@) == Some(text_members(document)),
            Err(_) => document_members(body@) is None,
        },
{
    serde_json::from_slice::<serde_json::Value>(body)
}

/// `serde_json::Value::get` with a string index, the member handed out as a
/// `String`.
///
/// Claimed: the result is the text of the member `name` where the document
/// is an object that has such a member and its value is a string, and `None`
/// in every other case. This is what `text_members` holds under `name`.
#[verifier::external_body]
pub(crate) fn member_text(document: &serde_json::Value, name: &str) -> (text: Option<String>)
    ensures
        match text {
            Some(text) => text_members(*document).contains_key(name@) && text_members(
                *document,
            )[name@] == text@,
            None => !text_members(*document).contains_key(name@),
        },
{
    match document.get(name) {
        Some(serde_json::Value::String(text)) => Some(text.clone()),
        _ => None,
    }
}

} // verus!
