//! Trusted boundary to the JSON codec. The geometry metadata document arrives
//! as a JSON text; parsing and field access are delegated to `serde_json`, and
//! every structural decision on what came back is made by verified code in
//! `metadata`.
//!
//! Each call here is a pure function of its arguments, so each result bears a
//! name; `metadata` states its contracts over those names.

use vstd::prelude::*;

verus! {

#[verifier::external_type_specification]
#[verifier::external_body]
pub struct ExJsonValue(serde_json::Value);

/// What parsing a text as JSON yields: a value, or nothing when the text is
/// not well-formed JSON. A pure function of the text.
pub uninterp spec fn json_value_of(s: Seq<char>) -> Option<serde_json::Value>;

/// The member of a JSON object under a key; nothing when absent or when the
/// value is no object.
pub uninterp spec fn json_member_of(v: serde_json::Value, key: Seq<char>) -> Option<
    serde_json::Value,
>;

/// The text of a JSON string value; nothing for any other value.
pub uninterp spec fn json_str_of(v: serde_json::Value) -> Option<Seq<char>>;

/// The value of a JSON integer; nothing for any other value.
pub uninterp spec fn json_i64_of(v: serde_json::Value) -> Option<i64>;

/// The elements of a JSON array; nothing for any other value.
pub uninterp spec fn json_array_of(v: serde_json::Value) -> Option<Seq<serde_json::Value>>;

/// The members of a JSON object as pairs, in the object's order; nothing for
/// any other value.
pub uninterp spec fn json_entries_of(v: serde_json::Value) -> Option<
    Seq<(String, serde_json::Value)>,
>;

/// Whether the value is JSON null.
pub uninterp spec fn json_is_null_v(v: serde_json::Value) -> bool;

/// Whether the value is a JSON number.
pub uninterp spec fn json_is_number_v(v: serde_json::Value) -> bool;

/// The value rendered back as JSON text.
pub uninterp spec fn json_text_of(v: serde_json::Value) -> Seq<char>;

/// Relies on serde_json::from_str::<serde_json::Value>: parses a JSON text,
/// `None` when the text is not well-formed JSON.
#[verifier::external_body]
pub(crate) fn json_parse(s: &str) -> (r: Option<serde_json::Value>)
    ensures
        r == json_value_of(s@),
{
    serde_json::from_str(s).ok()
}

/// Relies on serde_json::Value::get: the member of an object under `key`,
/// `None` when absent or when the value is no object.
#[verifier::external_body]
pub(crate) fn json_get<'a>(v: &'a serde_json::Value, key: &str) -> (r: Option<
    &'a serde_json::Value,
>)
    ensures
        r is Some <==> json_member_of(*v, key@) is Some,
        r matches Some(x) ==> json_member_of(*v, key@) == Some(*x),
{
    v.get(key)
}

/// Relies on serde_json::Value::as_str: the text of a JSON string value.
#[verifier::external_body]
pub(crate) fn json_as_str(v: &serde_json::Value) -> (r: Option<String>)
    ensures
        r is Some <==> json_str_of(*v) is Some,
        r matches Some(s) ==> json_str_of(*v) == Some(s@),
{
    v.as_str().map(|s| s.to_string())
}

/// Relies on serde_json::Value::as_i64: the value of a JSON integer.
#[verifier::external_body]
pub(crate) fn json_as_i64(v: &serde_json::Value) -> (r: Option<i64>)
    ensures
        r == json_i64_of(*v),
{
    v.as_i64()
}

/// Relies on serde_json::Value::as_array: the elements of a JSON array.
#[verifier::external_body]
pub(crate) fn json_as_array(v: &serde_json::Value) -> (r: Option<Vec<serde_json::Value>>)
    ensures
        r is Some <==> json_array_of(*v) is Some,
        r matches Some(a) ==> json_array_of(*v) == Some(a@),
{
    v.as_array().map(|a| a.clone())
}

/// Relies on serde_json::Value::as_object: an object's members as pairs.
#[verifier::external_body]
pub(crate) fn json_object_entries(v: &serde_json::Value) -> (r: Option<
    Vec<(String, serde_json::Value)>,
>)
    ensures
        r is Some <==> json_entries_of(*v) is Some,
        r matches Some(m) ==> json_entries_of(*v) == Some(m@),
{
    v.as_object().map(|m| m.iter().map(|(k, x)| (k.clone(), x.clone())).collect())
}

/// Relies on serde_json::Value::is_null.
#[verifier::external_body]
pub(crate) fn json_is_null(v: &serde_json::Value) -> (r: bool)
    ensures
        r == json_is_null_v(*v),
{
    v.is_null()
}

/// Relies on serde_json::Value::is_number.
#[verifier::external_body]
pub(crate) fn json_is_number(v: &serde_json::Value) -> (r: bool)
    ensures
        r == json_is_number_v(*v),
{
    v.is_number()
}

/// Relies on serde_json::Value::to_string: the value rendered back as JSON
/// text, for fields that are carried through uninterpreted.
#[verifier::external_body]
pub(crate) fn json_text(v: &serde_json::Value) -> (r: String)
    ensures
        r@ == json_text_of(*v),
{
    v.to_string()
}

} // verus!
