//! The few things this crate needs of `serde_json::Value`, which the session
//! store and the transcription service speak in.
//!
//! Nothing here is proved: the contracts say what the source of `serde_json`
//! shows, and the rest of the crate builds on them.
use vstd::prelude::*;

verus! {

/// `serde_json::Value`, which is carried through and never looked into.
#[verifier::external_type_specification]
#[verifier::external_body]
pub struct ExJsonValue(serde_json::Value);

/// The text of a JSON value that is a string, and `None` for a value of any
/// other kind: what `serde_json::Value::as_str` gives.
pub uninterp spec fn json_string(value: serde_json::Value) -> Option<Seq<char>>;

/// The member that a JSON object holds under `key`, and `None` where the value
/// is no object or holds no such member: what `serde_json::Value::get` gives
/// for a string key.
pub uninterp spec fn json_member(value: serde_json::Value, key: Seq<char>) -> Option<
    serde_json::Value,
>;

/// Calls `serde_json::Value::as_str`, which matches on the value and hands out
/// the text of the `String` variant and `None` for every other variant.
#[verifier::external_body]
pub(crate) fn value_as_str(value: &serde_json::Value) -> (text: Option<&str>)
    ensures
        match text {
            Some(t) => json_string(*value) == Some(t@),
            None => json_string(*value) is None,
        },
{
    value.as_str()
}

/// Calls `serde_json::Value::get` with a string key, which looks the key up in
/// the map of an `Object` and gives `None` for every other variant.
#[verifier::external_body]
pub(crate) fn value_get<'a>(value: &'a serde_json::Value, key: &str) -> (member: Option<
    &'a serde_json::Value,
>)
    ensures
        match member {
            Some(m) => json_member(*value, key@) == Some(*m),
            None => json_member(*value, key@) is None,
        },
{
    value.get(key)
}

/// Calls `serde_json::Value::from` on a `String`, which wraps the text in the
/// `String` variant: `as_str` on the result gives the text back.
#[verifier::external_body]
pub(crate) fn value_from_string(text: String) -> (value: serde_json::Value)
    ensures
        json_string(value) == Some(text@),
{
    serde_json::Value::from(text)
}

} // verus!
