//! JSON values, as far as the decoding of response bodies reads them.

use vstd::prelude::*;

verus! {

#[verifier::external_type_specification]
#[verifier::external_body]
pub struct ExValue(serde_json::Value);

#[verifier::external_type_specification]
#[verifier::external_body]
pub struct ExJsonError(serde_json::Error);

/// The value that a JSON text parses to, or `None` where it is not JSON.
pub uninterp spec fn json_parse(b: Seq<u8>) -> Option<serde_json::Value>;

/// The member of an object under a key; `None` for a missing key and for a
/// value that is not an object.
pub uninterp spec fn json_member(v: serde_json::Value, key: Seq<char>) -> Option<serde_json::Value>;

/// The text of a JSON string; `None` for any other value.
pub uninterp spec fn json_text(v: serde_json::Value) -> Option<Seq<char>>;

/// The items of a JSON array; `None` for any other value.
pub uninterp spec fn json_items(v: serde_json::Value) -> Option<Seq<serde_json::Value>>;

/// Whether a value is JSON `null`.
pub uninterp spec fn json_is_null(v: serde_json::Value) -> bool;

/// Whether a value is a JSON object.
pub uninterp spec fn json_is_object(v: serde_json::Value) -> bool;

/// Relies on `serde_json::from_slice` into a `Value`: the outcome depends on
/// the bytes alone.
#[verifier::external_body]
pub(crate) fn parse_json(body: &[u8]) -> (r: Result<serde_json::Value, serde_json::Error>)
    ensures
        r is Ok <==> json_parse(body@) is Some,
        r is Ok ==> json_parse(body@) == Some(r->Ok_0),
{
    serde_json::from_slice(body)
}

/// Relies on `Value::get` with a string key: the member of an object, and
/// nothing for other values.
#[verifier::external_body]
pub(crate) fn member<'v>(v: &'v serde_json::Value, key: &str) -> (r: Option<&'v serde_json::Value>)
    ensures
        r is Some <==> json_member(*v, key@) is Some,
        r is Some ==> json_member(*v, key@) == Some(*r->Some_0),
        r is Some ==> json_is_object(*v),
{
    v.get(key)
}

/// Relies on `Value::as_str`: the text of a string value.
#[verifier::external_body]
pub(crate) fn as_text(v: &serde_json::Value) -> (r: Option<&str>)
    ensures
        r is Some <==> json_text(*v) is Some,
        r is Some ==> json_text(*v) == Some(r->Some_0@),
{
    v.as_str()
}

/// Relies on `Value::as_array`: the items of an array value.
#[verifier::external_body]
pub(crate) fn as_items(v: &serde_json::Value) -> (r: Option<&Vec<serde_json::Value>>)
    ensures
        r is Some <==> json_items(*v) is Some,
        r is Some ==> json_items(*v) == Some(r->Some_0@),
{
    v.as_array()
}

/// Relies on `Value::is_null`.
#[verifier::external_body]
pub(crate) fn is_null(v: &serde_json::Value) -> (r: bool)
    ensures
        r == json_is_null(*v),
{
    v.is_null()
}

/// Relies on `Value::is_object`.
#[verifier::external_body]
pub(crate) fn is_object(v: &serde_json::Value) -> (r: bool)
    ensures
        r == json_is_object(*v),
{
    v.is_object()
}

/// Relies on the derived `Clone` of `Value`: an equal value.
#[verifier::external_body]
pub(crate) fn copy_value(v: &serde_json::Value) -> (r: serde_json::Value)
    ensures
        r == *v,
{
    v.clone()
}

/// Relies on `Value::as_object_mut` and `Map::remove`: an object loses the
/// member under the key and keeps the others; any other value is left as
/// it is.
#[verifier::external_body]
pub(crate) fn remove_member(v: &mut serde_json::Value, key: &str)
    ensures
        json_is_object(*final(v)) == json_is_object(*old(v)),
        !json_is_object(*old(v)) ==> *final(v) == *old(v),
        json_is_object(*old(v)) ==> forall|k: Seq<char>|
            #[trigger] json_member(*final(v), k) == if k == key@ {
                None
            } else {
                json_member(*old(v), k)
            },
{
    if let Some(map) = v.as_object_mut() {
        map.remove(key);
    }
}

} // verus!
