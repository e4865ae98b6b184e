//! The three things this library asks of a JSON document, each answered by
//! `serde_json`.

use vstd::prelude::*;
use crate::text::optional_text;

verus! {

/// The string found under `key` in the JSON object that `doc` encodes. `None`
/// where `doc` is not a JSON document, not an object, has no such member, or
/// the member is not a string.
pub uninterp spec fn json_member_text(doc: Seq<u8>, key: Seq<char>) -> Option<Seq<char>>;

/// The compact rendering of the JSON document that `doc` encodes. `None`
/// where `doc` is not a JSON document.
pub uninterp spec fn json_compact_text(doc: Seq<u8>) -> Option<Seq<char>>;

/// `text` as a JSON string literal: quoted, with escapes.
pub uninterp spec fn json_quoted(text: Seq<char>) -> Seq<char>;

/// Trusted: `serde_json::from_slice` into a `serde_json::Value`, then
/// `Value::get` with `key` and `Value::as_str` on what it finds. All three
/// depend on their arguments alone, so the outcome has a name.
#[verifier::external_body]
pub(crate) fn string_member(doc: &[u8], key: &str) -> (text: Option<String>)
    ensures
        optional_text(text) == json_member_text(doc@, key@),
{
    let value = serde_json::from_slice::<serde_json::Value>(doc).ok()?;
    let member = value.get(key)?;
    Some(member.as_str()?.to_string())
}

/// Trusted: `serde_json::from_slice` into a `serde_json::Value`, then the
/// value's `Display`, which writes compact JSON.
#[verifier::external_body]
pub(crate) fn compact(doc: &[u8]) -> (text: Option<String>)
    ensures
        optional_text(text) == json_compact_text(doc@),
{
    let value = serde_json::from_slice::<serde_json::Value>(doc).ok()?;
    Some(value.to_string())
}

/// Trusted: the `Display` of `serde_json::Value::String`, which writes the
/// text as a JSON string literal.
#[verifier::external_body]
pub(crate) fn quote(text: &str) -> (literal: String)
    ensures
        literal@ == json_quoted(text@),
{
    serde_json::Value::String(text.to_string()).to_string()
}

} // verus!
