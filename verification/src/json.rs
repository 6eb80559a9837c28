//! Reading one string member out of a JSON text.

use vstd::prelude::*;

verus! {

/// What `serde_json` finds under `key` in `text`.
///
/// * `None`: `text` is not one JSON value.
/// * `Some(None)`: it is, but the value is no object, or has no member
///   `key`, or holds something other than a string there.
/// * `Some(Some(s))`: the value is an object whose member `key` is the
///   string `s`.
pub uninterp spec fn json_string_member(text: Seq<char>, key: Seq<char>) -> Option<
    Option<Seq<char>>,
>;

/// Parses `text` with `serde_json::from_str` into a `serde_json::Value` and
/// looks `key` up with `Value::get` and `Value::as_str`. Trusted: the result
/// depends on `text` and `key` alone, and is what [`json_string_member`]
/// names. A parse error becomes `None`.
#[verifier::external_body]
pub(crate) fn read_string_member(text: &str, key: &str) -> (found: Option<Option<String>>)
    ensures
        found.deep_view() == json_string_member(text@, key@),
{
    let parsed = serde_json::from_str::<serde_json::Value>(text).ok();
    parsed.map(|value| value.get(key).and_then(|member| member.as_str()).map(|s| s.to_owned()))
}

} // verus!
