//! The cached response of the refresh call and the values read from it.
use crate::json::{as_object, as_text, json_document, json_shape, member, parse_document, JsonShape};
use crate::text::utf8_text;
use vstd::prelude::*;
use vstd::string::*;
use vstd::utf8::*;

verus! {

/// How the body of a refresh response is read.
#[derive(Clone, Copy, Debug, PartialEq, Eq, Structural)]
pub enum CacheSource {
    /// The body is the header value itself.
    Scalar,
    /// The body is a JSON object from lookup key to header value.
    ClusterMap,
}

/// One response of the refresh call, kept as it arrived.
#[derive(Clone, Debug, PartialEq, Eq)]
pub struct CacheEntry {
    /// The body of the response.
    pub raw_value: Vec<u8>,
    /// When the entry was written, as the caller counts time.
    pub written_at: u64,
    /// How the body is read.
    pub source: CacheSource,
}

/// A `CacheEntry` as plain values.
pub struct CacheEntryView {
    pub raw_value: Seq<u8>,
    pub written_at: u64,
    pub source: CacheSource,
}

impl View for CacheEntry {
    type V = CacheEntryView;

    open spec fn view(&self) -> CacheEntryView {
        CacheEntryView {
            raw_value: self.raw_value@,
            written_at: self.written_at,
            source: self.source,
        }
    }
}

/// The JSON document in a body: none when the body is not UTF-8 or not JSON.
pub open spec fn document_of(raw: Seq<u8>) -> Option<JsonShape> {
    if valid_utf8(raw) {
        json_document(decode_utf8(raw))
    } else {
        None
    }
}

/// Whether a body has the shape that its source asks for: UTF-8 text for a
/// scalar, a JSON object for a map.
pub open spec fn acceptable(source: CacheSource, raw: Seq<u8>) -> bool {
    match source {
        CacheSource::Scalar => valid_utf8(raw),
        CacheSource::ClusterMap => document_of(raw) matches Some(JsonShape::Object(_)),
    }
}

/// The header value that a scalar body holds.
pub open spec fn scalar_value(raw: Seq<u8>) -> Option<Seq<char>> {
    if valid_utf8(raw) {
        Some(decode_utf8(raw))
    } else {
        None
    }
}

/// The text stored under `key` in a JSON value. Only an object has members,
/// only a member that is a text counts, and the empty key finds nothing.
pub open spec fn shape_value(shape: JsonShape, key: Seq<char>) -> Option<Seq<char>> {
    if key.len() == 0 {
        None
    } else {
        match shape {
            JsonShape::Object(members) => if members.contains_key(key) {
                match members[key] {
                    JsonShape::Text(text) => Some(text),
                    _ => None,
                }
            } else {
                None
            },
            _ => None,
        }
    }
}

/// The header value that a map body holds under `key`: none when the body is
/// no JSON document, else what the document holds under `key`.
pub open spec fn member_value(raw: Seq<u8>, key: Seq<char>) -> Option<Seq<char>> {
    match document_of(raw) {
        Some(shape) => shape_value(shape, key),
        None => None,
    }
}

/// The header value that a body holds for `key` when it is read as `source`
/// says; a scalar body holds the same value for every key.
pub open spec fn body_value(source: CacheSource, raw: Seq<u8>, key: Seq<char>) -> Option<
    Seq<char>,
> {
    match source {
        CacheSource::Scalar => scalar_value(raw),
        CacheSource::ClusterMap => member_value(raw, key),
    }
}

/// The header value that an entry holds for `key`.
pub open spec fn entry_value(entry: CacheEntryView, key: Seq<char>) -> Option<Seq<char>> {
    body_value(entry.source, entry.raw_value, key)
}

/// Reads `raw` as a JSON document.
fn read_document(raw: &[u8]) -> (r: Option<serde_json::Value>)
    ensures
        match r {
            Some(value) => document_of(raw@) == Some(json_shape(value)),
            None => document_of(raw@) is None,
        },
{
    match utf8_text(raw) {
        None => None,
        Some(text) => match parse_document(text) {
            Ok(value) => Some(value),
            Err(_) => None,
        },
    }
}

/// Tells whether `body` has the shape that `source` asks for.
pub fn accepts(source: CacheSource, body: &[u8]) -> (ok: bool)
    ensures
        ok == acceptable(source, body@),
{
    match source {
        CacheSource::Scalar => utf8_text(body).is_some(),
        CacheSource::ClusterMap => match read_document(body) {
            Some(value) => as_object(&value).is_some(),
            None => false,
        },
    }
}

/// The text stored under `key` in `document`.
pub fn member_text(document: &serde_json::Value, key: &str) -> (value: Option<String>)
    ensures
        value is Some <==> shape_value(json_shape(*document), key@) is Some,
        value matches Some(s) ==> shape_value(json_shape(*document), key@) == Some(s@),
{
    if key.is_empty() {
        return None;
    }
    let object = match as_object(document) {
        Some(object) => object,
        None => {
            return None;
        },
    };
    match member(object, key) {
        Some(found) => match as_text(found) {
            Some(text) => Some(text.to_owned()),
            None => None,
        },
        None => None,
    }
}

/// The header value that `body` holds for `key` when it is read as `source`
/// says.
pub fn value_in(source: CacheSource, body: &[u8], key: &str) -> (value: Option<String>)
    ensures
        value is Some <==> body_value(source, body@, key@) is Some,
        value matches Some(s) ==> body_value(source, body@, key@) == Some(s@),
{
    match source {
        CacheSource::Scalar => match utf8_text(body) {
            Some(text) => Some(text.to_owned()),
            None => None,
        },
        CacheSource::ClusterMap => match read_document(body) {
            Some(document) => member_text(&document, key),
            None => None,
        },
    }
}

impl CacheEntry {
    /// The header value of a scalar body.
    pub fn scalar(&self) -> (value: Option<String>)
        ensures
            value is Some <==> scalar_value(self@.raw_value) is Some,
            value matches Some(s) ==> scalar_value(self@.raw_value) == Some(s@),
    {
        value_in(CacheSource::Scalar, self.raw_value.as_slice(), "")
    }

    /// The header value stored under `key` in a map body.
    pub fn lookup(&self, key: &str) -> (value: Option<String>)
        ensures
            value is Some <==> member_value(self@.raw_value, key@) is Some,
            value matches Some(s) ==> member_value(self@.raw_value, key@) == Some(s@),
    {
        value_in(CacheSource::ClusterMap, self.raw_value.as_slice(), key)
    }

    /// The header value that this entry holds for `key`.
    pub fn value(&self, key: &str) -> (value: Option<String>)
        ensures
            value is Some <==> entry_value(self@, key@) is Some,
            value matches Some(s) ==> entry_value(self@, key@) == Some(s@),
    {
        value_in(self.source, self.raw_value.as_slice(), key)
    }
}

} // verus!
