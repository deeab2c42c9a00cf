//! The JSON values of `serde_json`, as far as the dictionary snapshot needs
//! them. Values are opaque here; what the accessors return is named.
use vstd::prelude::*;

verus! {

#[verifier::external_type_specification]
#[verifier::external_body]
pub struct ExValue(serde_json::Value);

/// The member `key` of an object value; `None` for a missing member or a
/// value that is no object.
pub uninterp spec fn json_member(v: serde_json::Value, key: Seq<char>) -> Option<serde_json::Value>;

/// The text of a string value; `None` for any other value.
pub uninterp spec fn json_text(v: serde_json::Value) -> Option<Seq<char>>;

/// The elements of an array value; `None` for any other value.
pub uninterp spec fn json_elements(v: serde_json::Value) -> Option<Seq<serde_json::Value>>;

/// The members of an object value in the map's order; `None` for any other
/// value.
pub uninterp spec fn json_members(v: serde_json::Value) -> Option<Seq<(Seq<char>, serde_json::Value)>>;

/// Whether a value is an object.
pub uninterp spec fn json_is_object(v: serde_json::Value) -> bool;

/// Relies on `serde_json::Value::get`: the member `key` of an object, `None`
/// when the value is no object or has no such member.
#[verifier::external_body]
pub(crate) fn member(v: &serde_json::Value, key: &str) -> (r: Option<serde_json::Value>)
    ensures
        r == json_member(*v, key@),
{
    v.get(key).cloned()
}

/// Relies on `serde_json::Value::as_str`: the text of a string value.
#[verifier::external_body]
pub(crate) fn text_of(v: &serde_json::Value) -> (r: Option<String>)
    ensures
        json_text(*v) == (match r {
            Some(s) => Some(s@),
            None => None,
        }),
{
    v.as_str().map(|s| s.to_string())
}

/// Relies on `serde_json::Value::as_array`: the elements of an array value.
#[verifier::external_body]
pub(crate) fn elements_of(v: &serde_json::Value) -> (r: Option<Vec<serde_json::Value>>)
    ensures
        json_elements(*v) == (match r {
            Some(xs) => Some(xs@),
            None => None,
        }),
{
    v.as_array().cloned()
}

/// Relies on `serde_json::Value::as_object`: the members of an object value,
/// in the map's order.
#[verifier::external_body]
pub(crate) fn members_of(v: &serde_json::Value) -> (r: Option<Vec<(String, serde_json::Value)>>)
    ensures
        json_members(*v) == (match r {
            Some(ms) => Some(ms@.map_values(|p: (String, serde_json::Value)| (p.0@, p.1))),
            None => None,
        }),
{
    v.as_object().map(|m| m.iter().map(|(k, x)| (k.clone(), x.clone())).collect())
}

/// Relies on `serde_json::Value::is_object`.
#[verifier::external_body]
pub(crate) fn is_object(v: &serde_json::Value) -> (r: bool)
    ensures
        r == json_is_object(*v),
{
    v.is_object()
}

} // verus!
