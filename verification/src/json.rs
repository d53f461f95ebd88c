//! The JSON documents that the container header is written in, as far as the
//! header decoder reads them. Everything in this file is trusted: it states
//! what `serde_json` does and proves nothing.

use vstd::prelude::*;

verus! {

/// `serde_json::Value`: one JSON document. Nothing inside it is visible
/// here; what it holds is named below.
#[verifier::external_type_specification]
#[verifier::external_body]
pub struct ExJsonValue(serde_json::Value);

/// `serde_json::Error`: why a text is no JSON. Only carried, never read.
#[verifier::external_type_specification]
#[verifier::external_body]
pub struct ExJsonError(serde_json::Error);

/// The document that `serde_json::from_slice` reads from a text, if it reads one.
pub uninterp spec fn json_document(text: Seq<u8>) -> Option<serde_json::Value>;

/// The JSON pointers at which a value stands in a document, each with the
/// compact JSON text of that value.
pub uninterp spec fn json_rendered(doc: serde_json::Value) -> Map<Seq<char>, Seq<char>>;

/// The JSON pointers at which a string stands in a document, each with that string.
pub uninterp spec fn json_texts(doc: serde_json::Value) -> Map<Seq<char>, Seq<char>>;

/// The JSON pointers at which `true` or `false` stands in a document, each with that value.
pub uninterp spec fn json_bools(doc: serde_json::Value) -> Map<Seq<char>, bool>;

/// The JSON pointers at which a non-negative integer below 2^64 stands in a
/// document, each with that integer.
pub uninterp spec fn json_uints(doc: serde_json::Value) -> Map<Seq<char>, u64>;

/// Calls `serde_json::from_slice` for a `serde_json::Value`. The contract only
/// names the outcome: the same text always gives the same document, or always fails.
#[verifier::external_body]
pub(crate) fn json_from_slice(text: &[u8]) -> (r: Result<serde_json::Value, serde_json::Error>)
    ensures
        r matches Ok(doc) ==> json_document(text@) == Some(doc),
        r is Err ==> json_document(text@) is None,
{
    serde_json::from_slice::<serde_json::Value>(text)
}

/// Calls `serde_json::Value::pointer` and tells whether a value stands at the pointer.
#[verifier::external_body]
pub(crate) fn json_has(doc: &serde_json::Value, pointer: &str) -> (r: bool)
    ensures
        r == json_rendered(*doc).dom().contains(pointer@),
{
    doc.pointer(pointer).is_some()
}

/// Calls `serde_json::Value::pointer` and renders what stands there with the
/// value's `Display`, which writes compact JSON.
#[verifier::external_body]
pub(crate) fn json_render_at(doc: &serde_json::Value, pointer: &str) -> (r: Option<String>)
    ensures
        r is Some == json_rendered(*doc).dom().contains(pointer@),
        r matches Some(s) ==> json_rendered(*doc)[pointer@] == s@,
{
    match doc.pointer(pointer) {
        Some(value) => Some(value.to_string()),
        None => None,
    }
}

/// Calls `serde_json::Value::pointer` and then `Value::as_str`: the string at
/// the pointer, if a string stands there.
#[verifier::external_body]
pub(crate) fn json_text_at(doc: &serde_json::Value, pointer: &str) -> (r: Option<String>)
    ensures
        r is Some == json_texts(*doc).dom().contains(pointer@),
        r matches Some(s) ==> json_texts(*doc)[pointer@] == s@,
{
    match doc.pointer(pointer) {
        Some(value) => value.as_str().map(String::from),
        None => None,
    }
}

/// Calls `serde_json::Value::pointer` and then `Value::as_bool`: the boolean at
/// the pointer, if a boolean stands there.
#[verifier::external_body]
pub(crate) fn json_bool_at(doc: &serde_json::Value, pointer: &str) -> (r: Option<bool>)
    ensures
        r is Some == json_bools(*doc).dom().contains(pointer@),
        r matches Some(b) ==> json_bools(*doc)[pointer@] == b,
{
    match doc.pointer(pointer) {
        Some(value) => value.as_bool(),
        None => None,
    }
}

/// Calls `serde_json::Value::pointer` and then `Value::as_u64`: the integer at
/// the pointer, if a non-negative integer that fits 64 bits stands there.
#[verifier::external_body]
pub(crate) fn json_uint_at(doc: &serde_json::Value, pointer: &str) -> (r: Option<u64>)
    ensures
        r is Some == json_uints(*doc).dom().contains(pointer@),
        r matches Some(n) ==> json_uints(*doc)[pointer@] == n,
{
    match doc.pointer(pointer) {
        Some(value) => value.as_u64(),
        None => None,
    }
}

} // verus!
