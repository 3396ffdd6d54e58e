//! `serde_json::Value` as it runs through the library, and the two reads of it
//! that the library makes.

use vstd::prelude::*;

verus! {

/// JSON values are carried through the library unchanged; their contents are
/// not modelled.
#[verifier::external_type_specification]
#[verifier::external_body]
pub struct ExJsonValue(serde_json::Value);


/// `serde_json::Value` derives `Clone`, so a clone is the same JSON value.
pub assume_specification[ <serde_json::Value as Clone>::clone ](v: &serde_json::Value) -> (r: serde_json::Value)
    ensures
        r == *v,
;


/// The member that `Value::get` finds under `key`: present only when the value
/// is an object holding that key.
pub uninterp spec fn json_member(v: serde_json::Value, key: Seq<char>) -> Option<serde_json::Value>;

/// The text that `Value::as_str` finds: present only when the value is a JSON string.
pub uninterp spec fn json_text(v: serde_json::Value) -> Option<Seq<char>>;

/// Calls `Value::get` with a string key; the contract claims that the member
/// found is the one named by `json_member` for this value and key.
#[verifier::external_body]
pub(crate) fn json_get<'a>(v: &'a serde_json::Value, key: &str) -> (r: Option<&'a serde_json::Value>)
    ensures
        r is Some <==> json_member(*v, key@) is Some,
        r matches Some(m) ==> json_member(*v, key@) == Some(*m),
{
    v.get(key)
}

/// Calls `Value::as_str`; the contract claims that the text found is the one
/// named by `json_text` for this value.
#[verifier::external_body]
pub(crate) fn json_as_str(v: &serde_json::Value) -> (r: Option<&str>)
    ensures
        r is Some <==> json_text(*v) is Some,
        r matches Some(t) ==> json_text(*v) == Some(t@),
{
    v.as_str()
}

/// The text under `key` in `v`, or the empty text when `v` is not an object
/// holding a JSON string there.
pub open spec fn json_text_field(v: serde_json::Value, key: Seq<char>) -> Seq<char> {
    match json_member(v, key) {
        Some(m) => match json_text(m) {
            Some(t) => t,
            None => Seq::empty(),
        },
        None => Seq::empty(),
    }
}

/// The text stored under `key` in `v` (`""` when there is none).
pub fn text_field(v: &serde_json::Value, key: &str) -> (t: String)
    ensures
        t@ == json_text_field(*v, key@),
{
    match json_get(v, key) {
        Some(m) => match json_as_str(m) {
            Some(t) => t.to_owned(),
            None => String::new(),
        },
        None => String::new(),
    }
}

} // verus!
