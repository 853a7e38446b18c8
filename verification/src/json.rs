//! Reading JSON documents: parsing is left to `serde_json`, the rest is verified.

use vstd::prelude::*;

verus! {

/// A JSON document as `serde_json` holds it.
#[verifier::external_type_specification]
#[verifier::external_body]
pub struct ExJsonValue(serde_json::Value);

/// What `serde_json::from_slice` makes of `bytes` when asked for a `serde_json::Value`:
/// the document, or the text of the parser's complaint.
pub uninterp spec fn json_parsed(bytes: Seq<u8>) -> Result<serde_json::Value, Seq<char>>;

/// What `serde_json::Value::get` finds in `doc` under the key `key`.
pub uninterp spec fn json_member(doc: serde_json::Value, key: Seq<char>) -> Option<serde_json::Value>;

/// What `serde_json::Value::as_u64` reads from `doc`.
pub uninterp spec fn json_u64(doc: serde_json::Value) -> Option<u64>;

/// What `serde_json::Value::as_str` reads from `doc`.
pub uninterp spec fn json_str(doc: serde_json::Value) -> Option<Seq<char>>;

/// Calls `serde_json::from_slice` for a `serde_json::Value`, and takes the text of
/// its error. Trusted: the result is `json_parsed` of the bytes.
#[verifier::external_body]
pub(crate) fn parse_json(bytes: &[u8]) -> (r: Result<serde_json::Value, String>)
    ensures
        match r {
            Ok(doc) => json_parsed(bytes@) == Ok::<serde_json::Value, Seq<char>>(doc),
            Err(detail) => json_parsed(bytes@) == Err::<serde_json::Value, Seq<char>>(detail@),
        },
{
    serde_json::from_slice::<serde_json::Value>(bytes).map_err(|e| e.to_string())
}

/// Calls `serde_json::Value::get` with a string key. Trusted: the result is
/// `json_member` of the document and the key.
#[verifier::external_body]
pub(crate) fn json_get<'a>(doc: &'a serde_json::Value, key: &str) -> (r: Option<&'a serde_json::Value>)
    ensures
        match r {
            Some(member) => json_member(*doc, key@) == Some(*member),
            None => json_member(*doc, key@) is None,
        },
{
    doc.get(key)
}

/// Calls `serde_json::Value::as_u64`. Trusted: the result is `json_u64` of the document.
#[verifier::external_body]
pub(crate) fn json_as_u64(doc: &serde_json::Value) -> (r: Option<u64>)
    ensures
        r == json_u64(*doc),
{
    doc.as_u64()
}

/// Calls `serde_json::Value::as_str`. Trusted: the result is `json_str` of the document.
#[verifier::external_body]
pub(crate) fn json_as_str<'a>(doc: &'a serde_json::Value) -> (r: Option<&'a str>)
    ensures
        match r {
            Some(text) => json_str(*doc) == Some(text@),
            None => json_str(*doc) is None,
        },
{
    doc.as_str()
}

/// How a member of a document reads as a value of one plain type.
#[derive(Debug, Clone, PartialEq, Eq)]
pub enum Field<T> {
    /// The document has no member under the key, or is no object at all.
    Missing,
    /// The member is there and holds something else.
    Mismatch,
    /// The member is there and holds this value.
    Present(T),
}

/// A text field taken by its view.
pub open spec fn field_text(field: Field<String>) -> Field<Seq<char>> {
    match field {
        Field::Missing => Field::Missing,
        Field::Mismatch => Field::Mismatch,
        Field::Present(text) => Field::Present(text@),
    }
}

/// The member of `doc` under `key`, read as a non-negative integer.
pub open spec fn u64_field(doc: serde_json::Value, key: Seq<char>) -> Field<u64> {
    match json_member(doc, key) {
        None => Field::Missing,
        Some(member) => match json_u64(member) {
            None => Field::Mismatch,
            Some(n) => Field::Present(n),
        },
    }
}

/// The member of `doc` under `key`, read as a string.
pub open spec fn text_field(doc: serde_json::Value, key: Seq<char>) -> Field<Seq<char>> {
    match json_member(doc, key) {
        None => Field::Missing,
        Some(member) => match json_str(member) {
            None => Field::Mismatch,
            Some(text) => Field::Present(text),
        },
    }
}

/// Reads the member of `doc` under `key` as a non-negative integer.
pub fn read_u64(doc: &serde_json::Value, key: &str) -> (r: Field<u64>)
    ensures
        r == u64_field(*doc, key@),
{
    match json_get(doc, key) {
        None => Field::Missing,
        Some(member) => match json_as_u64(member) {
            None => Field::Mismatch,
            Some(n) => Field::Present(n),
        },
    }
}

/// Reads the member of `doc` under `key` as a string.
pub fn read_text(doc: &serde_json::Value, key: &str) -> (r: Field<String>)
    ensures
        field_text(r) == text_field(*doc, key@),
{
    match json_get(doc, key) {
        None => Field::Missing,
        Some(member) => match json_as_str(member) {
            None => Field::Mismatch,
            Some(text) => Field::Present(text.to_owned()),
        },
    }
}

} // verus!
