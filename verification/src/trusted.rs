//! What this library takes on trust from the crates it calls: `serde_json`
//! for the text of a JSON document, `base64` for the audio payload, and
//! `reqwest`'s `Url` for the address of a request.
//!
//! Nothing here is proved. Each function below makes one call and changes
//! the types of what goes in and what comes out; each contract says what the
//! called crate's source shows, and where that would take pages to state it
//! gives the result a name and says only that the result depends on the
//! arguments alone.

use crate::client::{address_bytes, MAX_ADDRESS_BYTES};
use crate::json::{Json, JsonValue};
use vstd::prelude::*;

verus! {

/// `serde_json::Number`, a JSON number. Nothing inside it is read here.
#[verifier::external_type_specification]
#[verifier::external_body]
pub struct ExNumber(serde_json::Number);

/// `serde_json::Value`, the JSON document of `serde_json`. It only passes
/// between the functions of this file.
#[verifier::external_type_specification]
#[verifier::external_body]
pub struct ExValue(serde_json::Value);

/// `serde_json::Error`, why a text was not read or written.
#[verifier::external_type_specification]
#[verifier::external_body]
pub struct ExJsonError(serde_json::Error);

/// `base64::DecodeError`, why a text was not decoded.
#[verifier::external_type_specification]
#[verifier::external_body]
pub struct ExBase64Error(base64::DecodeError);

/// `Clone::clone` of `serde_json::Number`: the copy is the number it was made
/// from.
pub assume_specification[ <serde_json::Number as Clone>::clone ](n: &serde_json::Number) -> (r:
    serde_json::Number)
    ensures
        r == *n,
;

/// The document that `serde_json::from_slice` reads from the bytes of a
/// text, where it reads one.
pub uninterp spec fn parsed_document(bytes: Seq<u8>) -> Option<JsonValue>;

/// The text that `serde_json::to_string` writes for a document: all on one
/// line.
pub uninterp spec fn compact_text(doc: JsonValue) -> Seq<char>;

/// The text that `serde_json::to_string_pretty` writes for a document:
/// indented, one member or element to a line.
pub uninterp spec fn pretty_text(doc: JsonValue) -> Seq<char>;

/// The bytes that `base64::decode` reads from a text, where it reads any.
pub uninterp spec fn base64_payload(text: Seq<char>) -> Option<Seq<u8>>;

/// The address that `Url::parse_with_params` makes of an absolute URL and
/// the pairs to add to its query, where it can read the URL.
pub uninterp spec fn url_with_query(base: Seq<char>, pairs: Seq<(Seq<char>, Seq<char>)>) -> Option<
    Seq<char>,
>;

/// The names and values of a list of query parameters, in order.
pub open spec fn pairs_view(pairs: Seq<(String, String)>) -> Seq<(Seq<char>, Seq<char>)> {
    Seq::new(pairs.len(), |i: int| (pairs[i].0@, pairs[i].1@))
}

/// Turns a document into the `serde_json::Value` that stands for it, variant
/// by variant. The members of an object go into a `serde_json::Map` in their
/// order, which the map keeps; of members that share a key it keeps one, at
/// the place of the first and with the value of the last.
#[verifier::external_body]
fn to_serde(doc: &Json) -> serde_json::Value {
    match doc {
        Json::Null => serde_json::Value::Null,
        Json::Bool(b) => serde_json::Value::Bool(*b),
        Json::Int(i) => serde_json::Value::from(*i),
        Json::Number(n) => serde_json::Value::Number(n.clone()),
        Json::String(s) => serde_json::Value::String(s.clone()),
        Json::Array(items) => serde_json::Value::Array(items.iter().map(to_serde).collect()),
        Json::Object(members) => serde_json::Value::Object(
            members.iter().map(|m| (m.0.clone(), to_serde(&m.1))).collect(),
        ),
    }
}

/// Turns a `serde_json::Value` into the document that stands for it, variant
/// by variant. A number for which `serde_json::Number::as_i64` gives an
/// integer becomes `Int`; the members of an object come in the order in which
/// the map holds them.
#[verifier::external_body]
fn from_serde(value: &serde_json::Value) -> Json {
    match value {
        serde_json::Value::Null => Json::Null,
        serde_json::Value::Bool(b) => Json::Bool(*b),
        serde_json::Value::Number(n) => match n.as_i64() {
            Some(i) => Json::Int(i),
            None => Json::Number(n.clone()),
        },
        serde_json::Value::String(s) => Json::String(s.clone()),
        serde_json::Value::Array(items) => Json::Array(items.iter().map(from_serde).collect()),
        serde_json::Value::Object(members) => Json::Object(
            members.iter().map(|(k, v)| (k.clone(), from_serde(v))).collect(),
        ),
    }
}

/// `serde_json::from_slice`, reading a `serde_json::Value`: whether the bytes
/// are read, and the document read from them, depend on the bytes alone.
#[verifier::external_body]
pub(crate) fn read_document(bytes: &[u8]) -> (read: Result<Json, serde_json::Error>)
    ensures
        match read {
            Ok(doc) => parsed_document(bytes@) == Some(doc@),
            Err(_) => parsed_document(bytes@) is None,
        },
{
    match serde_json::from_slice::<serde_json::Value>(bytes) {
        Ok(value) => Ok(from_serde(&value)),
        Err(error) => Err(error),
    }
}

/// `serde_json::to_string` on a `serde_json::Value`: the text depends on the
/// document alone. Writing a `Value` into memory does not fail: its keys are
/// strings, its numbers are finite and nothing is written to a device.
#[verifier::external_body]
pub(crate) fn write_compact(doc: &Json) -> (written: Result<String, serde_json::Error>)
    ensures
        written is Ok,
        written->Ok_0@ == compact_text(doc@),
{
    serde_json::to_string(&to_serde(doc))
}

/// `serde_json::to_string_pretty` on a `serde_json::Value`: the text depends
/// on the document alone, and writing it into memory does not fail.
#[verifier::external_body]
pub(crate) fn write_pretty(doc: &Json) -> (written: Result<String, serde_json::Error>)
    ensures
        written is Ok,
        written->Ok_0@ == pretty_text(doc@),
{
    serde_json::to_string_pretty(&to_serde(doc))
}

/// `base64::decode`, the decoder of the standard alphabet: whether the text
/// is accepted, and the bytes read from it, depend on the text alone.
#[verifier::external_body]
pub(crate) fn decode_base64(text: &String) -> (decoded: Result<Vec<u8>, base64::DecodeError>)
    ensures
        match decoded {
            Ok(bytes) => base64_payload(text@) == Some(bytes@),
            Err(_) => base64_payload(text@) is None,
        },
{
    base64::decode(text)
}

/// `reqwest::Url::parse_with_params`, the address written out as text:
/// whether the base is read as an absolute URL, and the address with the
/// pairs added to its query, depend on the base and the pairs alone.
///
/// `Url` holds the places of an address's parts as numbers of 32 bits and
/// panics where it adds a query to an address that has outgrown them. The
/// bound on the bytes read keeps every address far below that.
#[verifier::external_body]
pub(crate) fn parse_with_params(base: &String, pairs: &Vec<(String, String)>) -> (url: Option<
    String,
>)
    requires
        address_bytes(base@, pairs_view(pairs@)) <= MAX_ADDRESS_BYTES,
    ensures
        match url {
            Some(address) => url_with_query(base@, pairs_view(pairs@)) == Some(address@),
            None => url_with_query(base@, pairs_view(pairs@)) is None,
        },
{
    match reqwest::Url::parse_with_params(base, pairs) {
        Ok(url) => Some(url.into()),
        Err(_) => None,
    }
}

} // verus!
