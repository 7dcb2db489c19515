//! The JSON documents that the refresh call returns, read through
//! `serde_json`. Nothing in this file is proved: it states what the library
//! relies on from that crate.
use vstd::prelude::*;

verus! {

/// `serde_json::Value`, carried through without a look inside.
#[verifier::external_type_specification]
#[verifier::external_body]
pub struct ExValue(serde_json::Value);

/// `serde_json::Map`, carried through without a look inside.
#[verifier::external_type_specification]
#[verifier::external_body]
#[verifier::reject_recursive_types(K)]
#[verifier::reject_recursive_types(V)]
pub struct ExObject<K, V>(serde_json::Map<K, V>);

/// `serde_json::Error`, which only tells that a text was rejected.
#[verifier::external_type_specification]
#[verifier::external_body]
pub struct ExError(serde_json::Error);

/// What a JSON value holds, as far as this library reads it: the members of an
/// object, the characters of a text, or something else.
pub enum JsonShape {
    Object(Map<Seq<char>, JsonShape>),
    Text(Seq<char>),
    Other,
}

/// The document that `serde_json::from_str` reads from a text, and `None` for
/// a text that it rejects.
pub uninterp spec fn json_document(text: Seq<char>) -> Option<JsonShape>;

/// What a `serde_json::Value` holds.
pub uninterp spec fn json_shape(value: serde_json::Value) -> JsonShape;

/// The members that a `serde_json::Map` holds, by key.
pub uninterp spec fn json_members(object: serde_json::Map<String, serde_json::Value>) -> Map<
    Seq<char>,
    JsonShape,
>;

/// Calls `serde_json::from_str` for a `Value`. The parser reads nothing but
/// the text, so the same text always gives the same outcome: the value that
/// `json_document` names, or an error where it names none.
#[verifier::external_body]
pub(crate) fn parse_document(text: &str) -> (r: Result<serde_json::Value, serde_json::Error>)
    ensures
        match r {
            Ok(value) => json_document(text@) == Some(json_shape(value)),
            Err(_) => json_document(text@) is None,
        },
{
    serde_json::from_str(text)
}

/// Calls `Value::as_object`: the map of an object, and `None` for any other
/// value.
#[verifier::external_body]
pub(crate) fn as_object(value: &serde_json::Value) -> (r: Option<
    &serde_json::Map<String, serde_json::Value>,
>)
    ensures
        match r {
            Some(object) => json_shape(*value) == JsonShape::Object(json_members(*object)),
            None => !(json_shape(*value) is Object),
        },
{
    value.as_object()
}

/// Calls `Map::get`: the member stored under `key`, and `None` when the map
/// has no such key.
#[verifier::external_body]
pub(crate) fn member<'a>(
    object: &'a serde_json::Map<String, serde_json::Value>,
    key: &str,
) -> (r: Option<&'a serde_json::Value>)
    ensures
        match r {
            Some(value) => json_members(*object).contains_key(key@) && json_members(
                *object,
            )[key@] == json_shape(*value),
            None => !json_members(*object).contains_key(key@),
        },
{
    object.get(key)
}

/// Calls `Value::as_str`: the characters of a text, and `None` for any other
/// value.
#[verifier::external_body]
pub(crate) fn as_text(value: &serde_json::Value) -> (r: Option<&str>)
    ensures
        match r {
            Some(text) => json_shape(*value) == JsonShape::Text(text@),
            None => !(json_shape(*value) is Text),
        },
{
    value.as_str()
}

} // verus!
