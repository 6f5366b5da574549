//! A JSON document as a value of this library, and its passage to and from
//! text.

use crate::error::TtsError;
use crate::text::strings_view;
use crate::trusted::{
    compact_text, parsed_document, pretty_text, read_document, write_compact, write_pretty,
};
use vstd::pervasive::unreached;
use vstd::prelude::*;

verus! {

/// A JSON document.
///
/// A number that is an integer of 64 bits is held as `Int`. Any other number
/// is carried, unread, as the number type of `serde_json`. The members of an
/// object are held in the order in which they are written.
#[derive(Debug, PartialEq)]
pub enum Json {
    Null,
    Bool(bool),
    Int(i64),
    Number(serde_json::Number),
    String(String),
    Array(Vec<Json>),
    Object(Vec<(String, Json)>),
}

/// The mathematical value of a [`Json`] document.
pub enum JsonValue {
    Null,
    Bool(bool),
    Int(i64),
    Number(serde_json::Number),
    String(Seq<char>),
    Array(Seq<JsonValue>),
    Object(Seq<(Seq<char>, JsonValue)>),
}

/// The value of a document.
pub open spec fn json_value(doc: Json) -> JsonValue
    decreases doc,
{
    match doc {
        Json::Null => JsonValue::Null,
        Json::Bool(b) => JsonValue::Bool(b),
        Json::Int(i) => JsonValue::Int(i),
        Json::Number(n) => JsonValue::Number(n),
        Json::String(s) => JsonValue::String(s@),
        Json::Array(items) => JsonValue::Array(
            Seq::new(
                items@.len(),
                |i: int|
                    if 0 <= i < items@.len() {
                        json_value(items@[i])
                    } else {
                        JsonValue::Null
                    },
            ),
        ),
        Json::Object(members) => JsonValue::Object(
            Seq::new(
                members@.len(),
                |i: int|
                    if 0 <= i < members@.len() {
                        (members@[i].0@, json_value(members@[i].1))
                    } else {
                        (Seq::empty(), JsonValue::Null)
                    },
            ),
        ),
    }
}

impl View for Json {
    type V = JsonValue;

    open spec fn view(&self) -> JsonValue {
        json_value(*self)
    }
}

/// The values of the elements of an array, in order.
pub open spec fn items_view(items: Seq<Json>) -> Seq<JsonValue> {
    Seq::new(items.len(), |i: int| items[i]@)
}

/// The names and values of the members of an object, in order.
pub open spec fn members_view(members: Seq<(String, Json)>) -> Seq<(Seq<char>, JsonValue)> {
    Seq::new(members.len(), |i: int| (members[i].0@, members[i].1@))
}

/// The value of an array is the array of its elements' values.
pub proof fn lemma_array_view(items: Vec<Json>)
    ensures
        Json::Array(items)@ == JsonValue::Array(items_view(items@)),
{
    assert(Json::Array(items)@->Array_0 =~= items_view(items@));
}

/// The value of an object is the object of its members' names and values.
pub proof fn lemma_object_view(members: Vec<(String, Json)>)
    ensures
        Json::Object(members)@ == JsonValue::Object(members_view(members@)),
{
    assert(Json::Object(members)@->Object_0 =~= members_view(members@));
}

/// The string, where there is one, as a JSON value.
pub open spec fn string_value(text: Option<Seq<char>>) -> Option<JsonValue> {
    match text {
        Some(t) => Some(JsonValue::String(t)),
        None => None,
    }
}

/// The integer, where there is one, as a JSON value.
pub open spec fn int_value(number: Option<i32>) -> Option<JsonValue> {
    match number {
        Some(n) => Some(JsonValue::Int(n as i64)),
        None => None,
    }
}

/// The list of strings, where there is one, as a JSON array.
pub open spec fn strings_value(items: Option<Seq<Seq<char>>>) -> Option<JsonValue> {
    match items {
        Some(list) => Some(string_array(list)),
        None => None,
    }
}

/// The array of the given strings.
pub open spec fn string_array(items: Seq<Seq<char>>) -> JsonValue {
    JsonValue::Array(Seq::new(items.len(), |i: int| JsonValue::String(items[i])))
}

/// The array of the given strings, as a document.
pub fn strings_document(items: &Vec<String>) -> (doc: Json)
    ensures
        doc@ == string_array(strings_view(items@)),
{
    let mut elements: Vec<Json> = Vec::new();
    let mut i: usize = 0;
    while i < items.len()
        invariant
            0 <= i <= items.len(),
            elements@.len() == i,
            forall|j: int| 0 <= j < i ==> elements@[j]@ == JsonValue::String(items@[j]@),
        decreases items.len() - i,
    {
        elements.push(Json::String(items[i].clone()));
        i += 1;
    }
    proof {
        lemma_array_view(elements);
        assert(items_view(elements@) =~= string_array(strings_view(items@))->Array_0);
    }
    Json::Array(elements)
}

impl Json {
    /// Reads a document from the bytes of a JSON text.
    pub fn parse(bytes: &[u8]) -> (read: Result<Json, TtsError>)
        ensures
            match read {
                Ok(doc) => parsed_document(bytes@) == Some(doc@),
                Err(error) => error == TtsError::Decode && parsed_document(bytes@) is None,
            },
    {
        match read_document(bytes) {
            Ok(doc) => Ok(doc),
            Err(_) => Err(TtsError::Decode),
        }
    }

    /// The document as JSON text on one line.
    pub fn to_text(&self) -> (text: String)
        ensures
            text@ == compact_text(self@),
    {
        match write_compact(self) {
            Ok(text) => text,
            Err(_) => unreached(),
        }
    }

    /// The document as indented JSON text.
    pub fn to_pretty_text(&self) -> (text: String)
        ensures
            text@ == pretty_text(self@),
    {
        match write_pretty(self) {
            Ok(text) => text,
            Err(_) => unreached(),
        }
    }
}

} // verus!
