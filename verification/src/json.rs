//! Reading one member out of a JSON document.

use vstd::prelude::*;

verus! {

/// The text of the member `key` of the JSON document `document`: `Some`
/// where the document is well formed, is an object, has that member and
/// the member is a string; `None` in every other case.
pub uninterp spec fn json_text_member(document: Seq<char>, key: Seq<char>) -> Option<Seq<char>>;

/// The characters of an optional text.
pub open spec fn text_of(text: Option<String>) -> Option<Seq<char>> {
    match text {
        Some(t) => Some(t@),
        None => None,
    }
}

/// Parses `document` with `serde_json::from_str` into a `serde_json::Value`,
/// looks `key` up with `Value::get` and reads the member with
/// `Value::as_str`. A document that does not parse, a value that is no
/// object or lacks the member, and a member that is no string give `None`.
/// The contract only names the outcome: it claims that it depends on the
/// two texts alone.
#[verifier::external_body]
pub(crate) fn read_text_member(document: &str, key: &str) -> (r: Option<String>)
    ensures
        text_of(r) == json_text_member(document@, key@),
{
    let value: serde_json::Value = serde_json::from_str(document).ok()?;
    let member = value.get(key)?.as_str()?;
    Some(member.to_owned())
}

} // verus!
