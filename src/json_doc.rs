use vstd::prelude::*;

verus! {

#[verifier::external_type_specification]
#[verifier::external_body]
pub struct ExValue(serde_json::Value);

#[verifier::external_type_specification]
#[verifier::external_body]
pub struct ExJsonError(serde_json::Error);

/// The members of a JSON value whose values are strings, by key; empty when
/// the value is not an object.
pub uninterp spec fn string_members(v: serde_json::Value) -> Map<Seq<char>, Seq<char>>;

/// The string members of the JSON document that `text` holds, or `None` when
/// serde_json does not read `text` as one (it is not JSON, or it nests deeper
/// than serde_json's recursion limit).
pub uninterp spec fn text_string_members(text: Seq<char>) -> Option<Map<Seq<char>, Seq<char>>>;

/// Relies on serde_json::from_str (into a `Value`): whether it succeeds, and
/// the value it yields, depend on the text alone.
#[verifier::external_body]
pub(crate) fn parse_json(text: &str) -> (r: Result<serde_json::Value, serde_json::Error>)
    ensures
        r is Ok <==> text_string_members(text@) is Some,
        r matches Ok(v) ==> text_string_members(text@) == Some(string_members(v)),
{
    serde_json::from_str(text)
}

/// Relies on serde_json::Value::get with a string key: the member of an
/// object under `key`, taken here only when it is a string.
#[verifier::external_body]
pub(crate) fn string_member(v: &serde_json::Value, key: &str) -> (r: Option<String>)
    ensures
        r is Some <==> string_members(*v).contains_key(key@),
        r matches Some(s) ==> s@ == string_members(*v)[key@],
{
    match v.get(key) {
        Some(serde_json::Value::String(s)) => Some(s.clone()),
        _ => None,
    }
}

/// The string member under `key` of the JSON document `text`, if `text` is one.
pub open spec fn text_member(text: Seq<char>, key: Seq<char>) -> Option<Seq<char>> {
    match text_string_members(text) {
        Some(m) => if m.contains_key(key) { Some(m[key]) } else { None },
        None => None,
    }
}

} // verus!
