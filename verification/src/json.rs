//! What the library reads out of JSON documents. The parsing is done by
//! `serde_json`; nothing of it is proved here.

use vstd::prelude::*;

verus! {

/// What `serde_json` finds as the unsigned integer under `key` in the JSON
/// document `text`: `None` where `text` is no JSON document, where the
/// document is no object or has no such member, and where the member is
/// no integer from zero to `u64::MAX`.
pub uninterp spec fn json_u64_at(text: Seq<char>, key: Seq<char>) -> Option<u64>;

/// What `serde_json` finds as the string under `key` in the JSON document
/// `bytes`: `Err` with the parser's message where `bytes` is no JSON
/// document, `Ok(None)` where the document is no object, has no such
/// member or the member is no string, and `Ok` with the string otherwise.
pub uninterp spec fn json_text_at(bytes: Seq<u8>, key: Seq<char>) -> Result<
    Option<Seq<char>>,
    Seq<char>,
>;

/// The result of a lookup of a string, as plain text.
pub open spec fn lookup_view(found: Result<Option<String>, String>) -> Result<
    Option<Seq<char>>,
    Seq<char>,
> {
    match found {
        Ok(Some(text)) => Ok(Some(text@)),
        Ok(None) => Ok(None),
        Err(reason) => Err(reason@),
    }
}

/// Parses `text` with `serde_json::from_str` into a `serde_json::Value`,
/// looks `key` up with `Value::get` and reads the member with
/// `Value::as_u64`. The contract claims only that the result depends on
/// `text` and `key` alone.
#[verifier::external_body]
pub(crate) fn read_u64_member(text: &str, key: &str) -> (found: Option<u64>)
    ensures
        found == json_u64_at(text@, key@),
{
    match serde_json::from_str::<serde_json::Value>(text) {
        Ok(value) => match value.get(key) {
            Some(member) => member.as_u64(),
            None => None,
        },
        Err(_) => None,
    }
}

/// Parses `bytes` with `serde_json::from_slice` into a `serde_json::Value`,
/// indexes it with `key` and reads the member with `Value::as_str`. The
/// contract claims only that the result depends on `bytes` and `key` alone.
#[verifier::external_body]
pub(crate) fn read_text_member(bytes: &[u8], key: &str) -> (found: Result<Option<String>, String>)
    ensures
        lookup_view(found) == json_text_at(bytes@, key@),
{
    match serde_json::from_slice::<serde_json::Value>(bytes) {
        Ok(value) => match value[key].as_str() {
            Some(text) => Ok(Some(text.to_string())),
            None => Ok(None),
        },
        Err(error) => Err(error.to_string()),
    }
}

} // verus!
