use vstd::prelude::*;

verus! {

#[verifier::external_type_specification]
#[verifier::external_body]
pub struct ExJsonValue(serde_json::Value);

#[verifier::external_type_specification]
#[verifier::external_body]
pub struct ExJsonError(serde_json::Error);

/// The value serde_json reads from a text, if it reads one: the text must be
/// well-formed JSON that nests no deeper than serde_json's recursion limit.
pub uninterp spec fn json_parse_of(s: Seq<char>) -> Option<serde_json::Value>;

/// The elements of a value, if it is an array.
pub uninterp spec fn json_array_items(v: serde_json::Value) -> Option<Seq<serde_json::Value>>;

/// The member `key` of a value, if it is an object that has one.
pub uninterp spec fn json_member_of(v: serde_json::Value, key: Seq<char>) -> Option<
    serde_json::Value,
>;

/// A value as an `i64`, if it is an integer that fits.
pub uninterp spec fn json_i64_of(v: serde_json::Value) -> Option<i64>;

/// Relies on serde_json::from_str into a `Value`: what it reads, and whether
/// it reads anything, depends on the text alone.
#[verifier::external_body]
pub(crate) fn parse_json(data: &str) -> (r: Result<serde_json::Value, serde_json::Error>)
    ensures
        r is Ok <==> json_parse_of(data@) is Some,
        r matches Ok(v) ==> json_parse_of(data@) == Some(v),
{
    serde_json::from_str(data)
}

/// Relies on matching serde_json::Value::Array: the elements of an array;
/// any other value is handed back unchanged.
#[verifier::external_body]
pub(crate) fn json_into_array(v: serde_json::Value) -> (r: Result<
    Vec<serde_json::Value>,
    serde_json::Value,
>)
    ensures
        r matches Ok(items) ==> json_array_items(v) == Some(items@),
        r matches Err(w) ==> w == v && json_array_items(v) is None,
{
    match v {
        serde_json::Value::Array(items) => Ok(items),
        other => Err(other),
    }
}

/// Relies on serde_json::Value::Array: an array of the given elements.
#[verifier::external_body]
pub(crate) fn json_from_array(items: Vec<serde_json::Value>) -> (r: serde_json::Value)
    ensures
        json_array_items(r) == Some(items@),
{
    serde_json::Value::Array(items)
}

/// Relies on serde_json::Value::get: the member `key` of an object, if any.
#[verifier::external_body]
pub(crate) fn json_member<'a>(v: &'a serde_json::Value, key: &str) -> (r: Option<
    &'a serde_json::Value,
>)
    ensures
        r is None <==> json_member_of(*v, key@) is None,
        r matches Some(m) ==> json_member_of(*v, key@) == Some(*m),
{
    v.get(key)
}

/// Relies on serde_json::Value::as_i64: the value as an `i64`, if it is an
/// integer that fits.
#[verifier::external_body]
pub(crate) fn json_as_i64(v: &serde_json::Value) -> (r: Option<i64>)
    ensures
        r == json_i64_of(*v),
{
    v.as_i64()
}

} // verus!
