//! The boundary to `serde_json`.
//!
//! JSON objects are carried as `serde_json::Map` values and their members as
//! `serde_json::Value` values. Both are opaque to the verifier: what the
//! inbox needs to know about them is named here, and each call into
//! `serde_json` is a small function whose contract is trusted, not proved.

use vstd::prelude::*;

verus! {

#[verifier::external_type_specification]
#[verifier::external_body]
pub struct ExValue(serde_json::Value);

#[verifier::external_type_specification]
#[verifier::external_body]
#[verifier::reject_recursive_types(K)]
#[verifier::reject_recursive_types(V)]
pub struct ExMap<K, V>(serde_json::Map<K, V>);

/// A JSON object as `serde_json` holds it.
pub type JsonObject = serde_json::Map<String, serde_json::Value>;

/// The members of a JSON object as a mathematical map from key to value.
pub type Fields = Map<Seq<char>, serde_json::Value>;

/// Why `serde_json` could not decode a request body as a JSON object. The
/// variants are those of `serde_json::error::Category`.
#[derive(Clone, Copy, Debug, PartialEq, Eq, Structural)]
pub enum JsonFault {
    /// Reading the input failed.
    Io,
    /// The bytes are not syntactically valid JSON.
    Syntax,
    /// The bytes are valid JSON, but not of the expected shape.
    Data,
    /// The bytes end before the JSON text is complete.
    Eof,
}

/// The members of `object`: each key that is present, with its value.
pub uninterp spec fn object_fields(object: serde_json::Map<String, serde_json::Value>) -> Map<
    Seq<char>,
    serde_json::Value,
>;

/// What decoding `body` as one JSON object gives: the members of the object,
/// or the reason why there is none.
pub uninterp spec fn decoded_fields(body: Seq<u8>) -> Result<
    Map<Seq<char>, serde_json::Value>,
    JsonFault,
>;

/// The JSON string value that holds `text`.
pub uninterp spec fn json_string(text: Seq<char>) -> serde_json::Value;

/// The text of `value` if it is a JSON string, `None` for any other value.
pub uninterp spec fn json_text(value: serde_json::Value) -> Option<Seq<char>>;

/// The pretty-printed JSON text of the object with the members `fields`, or
/// `None` where `serde_json` reports that it cannot be serialized.
pub uninterp spec fn pretty_text(fields: Map<Seq<char>, serde_json::Value>) -> Option<Seq<char>>;

/// `serde_json::from_slice`, asked for a `serde_json::Map<String, Value>`.
///
/// Trusted: the outcome is a function of the bytes alone, which
/// `decoded_fields` names. An error is reported by its category, as
/// `serde_json::Error::classify` gives it.
#[verifier::external_body]
pub(crate) fn decode_object(body: &[u8]) -> (r: Result<JsonObject, JsonFault>)
    ensures
        match r {
            Ok(object) => decoded_fields(body@) == Ok::<Fields, JsonFault>(object_fields(object)),
            Err(fault) => decoded_fields(body@) == Err::<Fields, JsonFault>(fault),
        },
{
    match serde_json::from_slice::<JsonObject>(body) {
        Ok(object) => Ok(object),
        Err(e) => Err(
            match e.classify() {
                serde_json::error::Category::Io => JsonFault::Io,
                serde_json::error::Category::Syntax => JsonFault::Syntax,
                serde_json::error::Category::Data => JsonFault::Data,
                serde_json::error::Category::Eof => JsonFault::Eof,
            },
        ),
    }
}

/// `serde_json::Map::remove`.
///
/// Trusted: the key is gone afterwards, every other member is untouched, and
/// the value that was stored under the key, if any, is handed back.
#[verifier::external_body]
pub(crate) fn remove_field(object: &mut JsonObject, key: &str) -> (r: Option<serde_json::Value>)
    ensures
        object_fields(*final(object)) == object_fields(*old(object)).remove(key@),
        r == if object_fields(*old(object)).contains_key(key@) {
            Some(object_fields(*old(object))[key@])
        } else {
            None
        },
{
    object.remove(key)
}

/// `serde_json::Map::insert`.
///
/// Trusted: afterwards the key holds the new value, replacing any earlier
/// one, and every other member is untouched.
#[verifier::external_body]
pub(crate) fn insert_field(object: &mut JsonObject, key: String, value: serde_json::Value)
    ensures
        object_fields(*final(object)) == object_fields(*old(object)).insert(key@, value),
{
    object.insert(key, value);
}

/// `Clone::clone` of a `serde_json::Map<String, Value>`.
///
/// Trusted: the copy has the same members as the object it is made from.
#[verifier::external_body]
pub(crate) fn clone_object(object: &JsonObject) -> (r: JsonObject)
    ensures
        object_fields(r) == object_fields(*object),
{
    object.clone()
}

/// `serde_json::Value::as_str`, with the text copied out.
///
/// Trusted: the result is the text of a JSON string and `None` for any other
/// value, which is what `json_text` names; and a value that has a text is
/// the JSON string of that text.
#[verifier::external_body]
pub(crate) fn text_of(value: &serde_json::Value) -> (r: Option<String>)
    ensures
        r.deep_view() == json_text(*value),
        r matches Some(text) ==> *value == json_string(text@),
{
    value.as_str().map(str::to_owned)
}

/// Builds a `serde_json::Value::String`.
///
/// Trusted: the result is the JSON string of the given text, which is what
/// `json_string` names, and its text is the given one.
#[verifier::external_body]
pub(crate) fn text_value(text: String) -> (r: serde_json::Value)
    ensures
        r == json_string(text@),
        json_text(r) == Some(text@),
{
    serde_json::Value::String(text)
}

/// `serde_json::to_string_pretty` of a `serde_json::Map<String, Value>`.
///
/// Trusted: the text is a function of the members alone, which `pretty_text`
/// names. This holds because the map keeps its members ordered by key, as
/// it does unless `serde_json` is built to preserve their order of insertion.
#[verifier::external_body]
pub(crate) fn pretty_print(object: &JsonObject) -> (r: Option<String>)
    ensures
        r.deep_view() == pretty_text(object_fields(*object)),
{
    serde_json::to_string_pretty(object).ok()
}

} // verus!
