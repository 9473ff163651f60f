//! JSON documents, read with `serde_json`. Verus sees a document as an
//! opaque value; what the parser and the accessors return is given a name,
//! and the rules of this library are stated over those names.

use vstd::prelude::*;
use vstd::string::*;

verus! {

/// A JSON document of `serde_json`.
#[verifier::external_type_specification]
#[verifier::external_body]
pub struct ExValue(serde_json::Value);

/// The document that `serde_json::from_str` reads from `text`, if it reads
/// one.
pub uninterp spec fn parsed(text: Seq<char>) -> Option<serde_json::Value>;

/// The document that `serde_json::from_slice` reads from `bytes`, if it
/// reads one.
pub uninterp spec fn parsed_bytes(bytes: Seq<u8>) -> Option<serde_json::Value>;

/// The member that `serde_json::Value::get` finds under `key`, if `value` is
/// an object that has one.
pub uninterp spec fn member(value: serde_json::Value, key: Seq<char>) -> Option<serde_json::Value>;

/// The text that `serde_json::Value::as_str` finds in `value`, if `value` is
/// a string.
pub uninterp spec fn text_of(value: serde_json::Value) -> Option<Seq<char>>;

/// The number that `serde_json::Value::as_u64` finds in `value`, if `value`
/// is an integer that fits.
pub uninterp spec fn number_of(value: serde_json::Value) -> Option<u64>;

/// Calls `serde_json::from_str` for a whole document. The contract names
/// the outcome: the same text reads as the same document, and fails to
/// read the same way.
#[verifier::external_body]
pub(crate) fn from_str(text: &str) -> (r: Option<serde_json::Value>)
    ensures
        r == parsed(text@),
{
    serde_json::from_str::<serde_json::Value>(text).ok()
}

/// Calls `serde_json::from_slice` for a whole document. The contract names
/// the outcome, as for `from_str`.
#[verifier::external_body]
pub(crate) fn from_slice(bytes: &[u8]) -> (r: Option<serde_json::Value>)
    ensures
        r == parsed_bytes(bytes@),
{
    serde_json::from_slice::<serde_json::Value>(bytes).ok()
}

/// Calls `serde_json::Value::get` with a string key. The contract names the
/// outcome.
#[verifier::external_body]
pub(crate) fn get<'a>(value: &'a serde_json::Value, key: &str) -> (r: Option<&'a serde_json::Value>)
    ensures
        r matches Some(found) ==> member(*value, key@) == Some(*found),
        r is None ==> member(*value, key@) is None,
{
    value.get(key)
}

/// `serde_json::Value::as_str` returns the text of a string and nothing for
/// any other value. The contract names the outcome.
pub assume_specification<'a>[ serde_json::Value::as_str ](value: &'a serde_json::Value) -> (r:
    Option<&'a str>)
    ensures
        r matches Some(text) ==> text_of(*value) == Some(text@),
        r is None ==> text_of(*value) is None,
;

/// `serde_json::Value::as_u64` returns an integer that fits `u64` and
/// nothing for any other value. The contract names the outcome.
pub assume_specification[ serde_json::Value::as_u64 ](value: &serde_json::Value) -> (r: Option<u64>)
    ensures
        r == number_of(*value),
;

/// The text of the member `key` of `value`, if there is such a member and
/// it is a string.
pub open spec fn member_text(value: serde_json::Value, key: Seq<char>) -> Option<Seq<char>> {
    match member(value, key) {
        Some(found) => text_of(found),
        None => None,
    }
}

/// The number of the member `key` of `value`, if there is such a member and
/// it is an integer that fits.
pub open spec fn member_number(value: serde_json::Value, key: Seq<char>) -> Option<u64> {
    match member(value, key) {
        Some(found) => number_of(found),
        None => None,
    }
}

/// The characters of an optional string.
pub open spec fn text_view(text: Option<String>) -> Option<Seq<char>> {
    match text {
        Some(s) => Some(s@),
        None => None,
    }
}

/// The text of the member `key`, copied out.
pub(crate) fn get_text(value: &serde_json::Value, key: &str) -> (text: Option<String>)
    ensures
        text_view(text) == member_text(*value, key@),
{
    match get(value, key) {
        Some(found) => match found.as_str() {
            Some(s) => Some(s.to_owned()),
            None => None,
        },
        None => None,
    }
}

/// The number of the member `key`.
pub(crate) fn get_number(value: &serde_json::Value, key: &str) -> (number: Option<u64>)
    ensures
        number == member_number(*value, key@),
{
    match get(value, key) {
        Some(found) => found.as_u64(),
        None => None,
    }
}

} // verus!
