//! What the service answers: synthesized audio and the catalog of voices,
//! each read from the JSON document of a response body.
//!
//! A field may be written under its name or under its alias. In a document
//! it must be written exactly once: a document that names a field twice,
//! under one name or under both, is not of the expected shape. Members that
//! are not fields are passed over.
//!
//! The bytes of a body are first read as a document by `serde_json`, which
//! keeps one member for each key: the last that the text writes. So a body
//! whose text writes one key twice is read with the later value, and only a
//! body that writes a field under its name and under its alias as well is
//! refused for naming it twice.

use crate::error::TtsError;
use crate::fields::{
    distinct_keys, field, find_field, lemma_field_by_either_name, lemma_field_of_one,
    lemma_field_skips_right, lemma_written_field, lemma_written_push, member, push_member,
    written,
};
use crate::json::{
    items_view, lemma_array_view, lemma_object_view, members_view, string_array,
    strings_document, Json, JsonValue,
};
use crate::text::strings_view;
use crate::trusted::{base64_payload, decode_base64, parsed_document, pretty_text};
use crate::voice_props::{lemma_gender_wire_names, SsmlVoiceGender, VoiceProps, VoicePropsView};
use vstd::prelude::*;

verus! {

/// Synthesized audio, as the service sent it: base64 text.
#[derive(Clone, Debug, PartialEq, Eq)]
pub struct TtsResponse {
    audio_content: String,
}

/// The mathematical value of a [`TtsResponse`].
pub struct TtsResponseView {
    pub audio_content: Seq<char>,
}

impl View for TtsResponse {
    type V = TtsResponseView;

    closed spec fn view(&self) -> TtsResponseView {
        TtsResponseView { audio_content: self.audio_content@ }
    }
}

/// The synthesis response that a document stands for: an object whose field
/// `audio_content`, or `audioContent`, is a string.
pub open spec fn decoded_response(doc: JsonValue) -> Option<TtsResponseView> {
    match doc {
        JsonValue::Object(members) => match field(members, "audio_content"@, "audioContent"@) {
            Some(JsonValue::String(content)) => Some(TtsResponseView { audio_content: content }),
            _ => None,
        },
        _ => None,
    }
}

impl TtsResponse {
    /// Reads a synthesis response from a document.
    pub fn from_json(doc: &Json) -> (read: Result<TtsResponse, TtsError>)
        ensures
            match read {
                Ok(response) => decoded_response(doc@) == Some(response@),
                Err(error) => error == TtsError::Decode && decoded_response(doc@) is None,
            },
    {
        match doc {
            Json::Object(members) => {
                proof {
                    lemma_object_view(*members);
                }
                match find_field(members, "audio_content", "audioContent") {
                    Some(Json::String(content)) => Ok(
                        TtsResponse { audio_content: content.clone() },
                    ),
                    _ => Err(TtsError::Decode),
                }
            },
            _ => Err(TtsError::Decode),
        }
    }

    /// Reads a synthesis response from the bytes of a response body. Of a key
    /// that the text writes twice, the later value counts.
    pub fn from_slice(bytes: &[u8]) -> (read: Result<TtsResponse, TtsError>)
        ensures
            match read {
                Ok(response) => parsed_document(bytes@) is Some && decoded_response(
                    parsed_document(bytes@)->Some_0,
                ) == Some(response@),
                Err(error) => error == TtsError::Decode && (parsed_document(bytes@) is None
                    || decoded_response(parsed_document(bytes@)->Some_0) is None),
            },
    {
        match Json::parse(bytes) {
            Ok(doc) => TtsResponse::from_json(&doc),
            Err(error) => Err(error),
        }
    }

    /// The audio as the base64 text that was sent.
    pub fn as_base_64(&self) -> (text: String)
        ensures
            text@ == self@.audio_content,
    {
        self.audio_content.clone()
    }

    /// The audio as bytes, where the text that was sent is base64.
    pub fn as_byte_stream(&self) -> (audio: Result<Vec<u8>, TtsError>)
        ensures
            match audio {
                Ok(bytes) => base64_payload(self@.audio_content) == Some(bytes@),
                Err(error) => error == TtsError::MalformedBase64 && base64_payload(
                    self@.audio_content,
                ) is None,
            },
    {
        match decode_base64(&self.audio_content) {
            Ok(bytes) => Ok(bytes),
            Err(_) => Err(TtsError::MalformedBase64),
        }
    }
}

/// A voice as the service describes it.
#[derive(Clone, Debug, PartialEq, Eq)]
pub struct VoiceDescription {
    pub language_codes: Vec<String>,
    pub name: String,
    pub ssml_gender: SsmlVoiceGender,
    pub natural_sample_rate_hertz: i32,
}

/// The mathematical value of a [`VoiceDescription`].
pub struct VoiceDescriptionView {
    pub language_codes: Seq<Seq<char>>,
    pub name: Seq<char>,
    pub ssml_gender: SsmlVoiceGender,
    pub natural_sample_rate_hertz: i32,
}

impl View for VoiceDescription {
    type V = VoiceDescriptionView;

    open spec fn view(&self) -> VoiceDescriptionView {
        VoiceDescriptionView {
            language_codes: strings_view(self.language_codes@),
            name: self.name@,
            ssml_gender: self.ssml_gender,
            natural_sample_rate_hertz: self.natural_sample_rate_hertz,
        }
    }
}

/// The strings that the elements of an array are, where all of them are
/// strings.
pub open spec fn decoded_strings(items: Seq<JsonValue>) -> Option<Seq<Seq<char>>> {
    if forall|i: int| 0 <= i < items.len() ==> (#[trigger] items[i]) is String {
        Some(Seq::new(items.len(), |i: int| items[i]->String_0))
    } else {
        None
    }
}

/// The voice description that a document stands for: an object with the
/// fields `language_codes` (or `languageCodes`), an array of strings; `name`,
/// a string; `ssml_gender` (or `ssmlGender`), the string of a gender; and
/// `natural_sample_rate_hertz` (or `naturalSampleRateHertz`), an integer of
/// 32 bits.
pub open spec fn decoded_voice(doc: JsonValue) -> Option<VoiceDescriptionView> {
    match doc {
        JsonValue::Object(members) => match (
            field(members, "language_codes"@, "languageCodes"@),
            field(members, "name"@, "name"@),
            field(members, "ssml_gender"@, "ssmlGender"@),
            field(members, "natural_sample_rate_hertz"@, "naturalSampleRateHertz"@),
        ) {
            (
                Some(JsonValue::Array(codes)),
                Some(JsonValue::String(name)),
                Some(JsonValue::String(gender)),
                Some(JsonValue::Int(rate)),
            ) => if decoded_strings(codes) is Some && SsmlVoiceGender::from_wire_name(gender)
                is Some && i32::MIN <= rate <= i32::MAX {
                Some(
                    VoiceDescriptionView {
                        language_codes: decoded_strings(codes)->Some_0,
                        name: name,
                        ssml_gender: SsmlVoiceGender::from_wire_name(gender)->Some_0,
                        natural_sample_rate_hertz: rate as i32,
                    },
                )
            } else {
                None
            },
            _ => None,
        },
        _ => None,
    }
}

/// Reads the strings of an array, where all its elements are strings.
fn strings_of(items: &Vec<Json>) -> (read: Option<Vec<String>>)
    ensures
        match read {
            Some(list) => decoded_strings(items_view(items@)) == Some(strings_view(list@)),
            None => decoded_strings(items_view(items@)) is None,
        },
{
    let ghost values = items_view(items@);
    let mut list: Vec<String> = Vec::new();
    let mut i: usize = 0;
    while i < items.len()
        invariant
            0 <= i <= items.len(),
            values == items_view(items@),
            list@.len() == i,
            forall|j: int| 0 <= j < i ==> (#[trigger] values[j]) is String,
            forall|j: int| 0 <= j < i ==> list@[j]@ == values[j]->String_0,
        decreases items.len() - i,
    {
        match &items[i] {
            Json::String(text) => {
                list.push(text.clone());
            },
            _ => {
                assert(!(values[i as int] is String));
                return None;
            },
        }
        i += 1;
    }
    assert(strings_view(list@) =~= decoded_strings(values)->Some_0);
    Some(list)
}

impl VoiceDescriptionView {
    /// The fields of a description, in the order in which they are written.
    /// All of them are set.
    pub open spec fn fields(self) -> Seq<(Seq<char>, Option<JsonValue>)> {
        seq![
            ("language_codes"@, Some(string_array(self.language_codes))),
            ("name"@, Some(JsonValue::String(self.name))),
            ("ssml_gender"@, Some(JsonValue::String(self.ssml_gender.wire_name()))),
            (
                "natural_sample_rate_hertz"@,
                Some(JsonValue::Int(self.natural_sample_rate_hertz as i64)),
            ),
        ]
    }

    /// The document written for the description: an object of its fields.
    pub open spec fn document(self) -> JsonValue {
        JsonValue::Object(written(self.fields()))
    }
}

/// The members written for a description, one after the other.
proof fn lemma_voice_description_members(voice: VoiceDescriptionView)
    ensures
        written(voice.fields()) == member("language_codes"@, string_array(voice.language_codes))
            + member("name"@, JsonValue::String(voice.name)) + member(
            "ssml_gender"@,
            JsonValue::String(voice.ssml_gender.wire_name()),
        ) + member(
            "natural_sample_rate_hertz"@,
            JsonValue::Int(voice.natural_sample_rate_hertz as i64),
        ),
{
    let fields = voice.fields();
    lemma_written_push(Seq::empty(), fields[0].0, fields[0].1);
    lemma_written_push(fields.take(1), fields[1].0, fields[1].1);
    lemma_written_push(fields.take(2), fields[2].0, fields[2].1);
    lemma_written_push(fields.take(3), fields[3].0, fields[3].1);
    assert(fields.take(1) =~= Seq::empty().push(fields[0]));
    assert(fields.take(2) =~= fields.take(1).push(fields[1]));
    assert(fields.take(3) =~= fields.take(2).push(fields[2]));
    assert(fields =~= fields.take(3).push(fields[3]));
    assert(written(fields) =~= member("language_codes"@, string_array(voice.language_codes))
        + member("name"@, JsonValue::String(voice.name)) + member(
        "ssml_gender"@,
        JsonValue::String(voice.ssml_gender.wire_name()),
    ) + member(
        "natural_sample_rate_hertz"@,
        JsonValue::Int(voice.natural_sample_rate_hertz as i64),
    ));
}

/// No two fields of a description share a key, and no alias of one field is
/// the key of another.
proof fn lemma_voice_description_keys(voice: VoiceDescriptionView)
    ensures
        distinct_keys(voice.fields()),
        forall|j: int|
            0 <= j < 4 && j != 0 ==> (#[trigger] voice.fields()[j]).0 != "languageCodes"@,
        forall|j: int| 0 <= j < 4 && j != 2 ==> (#[trigger] voice.fields()[j]).0 != "ssmlGender"@,
        forall|j: int|
            0 <= j < 4 && j != 3 ==> (#[trigger] voice.fields()[j]).0
                != "naturalSampleRateHertz"@,
{
    lemma_field_names();
}

/// Reading the document written for a description gives the description
/// back.
pub proof fn lemma_voice_description_round_trip(voice: VoiceDescriptionView)
    ensures
        decoded_voice(voice.document()) == Some(voice),
{
    let fields = voice.fields();
    lemma_voice_description_keys(voice);
    lemma_written_field(fields, 0, "languageCodes"@);
    lemma_written_field(fields, 1, "name"@);
    lemma_written_field(fields, 2, "ssmlGender"@);
    lemma_written_field(fields, 3, "naturalSampleRateHertz"@);
    let codes = string_array(voice.language_codes)->Array_0;
    assert(decoded_strings(codes) is Some);
    assert(decoded_strings(codes)->Some_0 =~= voice.language_codes);
    lemma_gender_wire_names(voice.ssml_gender, voice.ssml_gender.wire_name());
}

impl VoiceDescription {
    /// Reads a voice description from a document.
    pub fn from_json(doc: &Json) -> (read: Result<VoiceDescription, TtsError>)
        ensures
            match read {
                Ok(voice) => decoded_voice(doc@) == Some(voice@),
                Err(error) => error == TtsError::Decode && decoded_voice(doc@) is None,
            },
    {
        let members = match doc {
            Json::Object(members) => members,
            _ => {
                return Err(TtsError::Decode);
            },
        };
        proof {
            lemma_object_view(*members);
        }
        let language_codes = match find_field(members, "language_codes", "languageCodes") {
            Some(Json::Array(items)) => {
                proof {
                    lemma_array_view(*items);
                }
                match strings_of(items) {
                    Some(list) => list,
                    None => {
                        return Err(TtsError::Decode);
                    },
                }
            },
            _ => {
                return Err(TtsError::Decode);
            },
        };
        let name = match find_field(members, "name", "name") {
            Some(Json::String(text)) => text.clone(),
            _ => {
                return Err(TtsError::Decode);
            },
        };
        let ssml_gender = match find_field(members, "ssml_gender", "ssmlGender") {
            Some(Json::String(text)) => match SsmlVoiceGender::from_wire_str(text.as_str()) {
                Some(gender) => gender,
                None => {
                    return Err(TtsError::Decode);
                },
            },
            _ => {
                return Err(TtsError::Decode);
            },
        };
        let natural_sample_rate_hertz = match find_field(
            members,
            "natural_sample_rate_hertz",
            "naturalSampleRateHertz",
        ) {
            Some(Json::Int(rate)) => {
                if *rate < -2147483648 || *rate > 2147483647 {
                    return Err(TtsError::Decode);
                }
                *rate as i32
            },
            _ => {
                return Err(TtsError::Decode);
            },
        };
        Ok(VoiceDescription { language_codes, name, ssml_gender, natural_sample_rate_hertz })
    }

    /// The voice selection that asks for this voice: its first language, its
    /// name and its gender. There is none for a description without a
    /// language.
    pub fn try_convert_to_voice_props(&self) -> (converted: Result<VoiceProps, TtsError>)
        ensures
            match converted {
                Ok(voice) => self@.language_codes.len() > 0 && voice@ == (VoicePropsView {
                    language_code: self@.language_codes[0],
                    name: Some(self@.name),
                    ssml_gender: Some(self@.ssml_gender),
                }),
                Err(error) => error == TtsError::EmptyLanguageCodes && self@.language_codes.len()
                    == 0,
            },
    {
        if self.language_codes.len() == 0 {
            return Err(TtsError::EmptyLanguageCodes);
        }
        Ok(
            VoiceProps::new(
                self.language_codes[0].clone(),
                Some(self.name.clone()),
                Some(self.ssml_gender),
            ),
        )
    }

    /// The document that stands for the description.
    pub fn to_json(&self) -> (doc: Json)
        ensures
            doc@ == self@.document(),
    {
        let mut members: Vec<(String, Json)> = Vec::new();
        push_member(&mut members, "language_codes", strings_document(&self.language_codes));
        push_member(&mut members, "name", Json::String(self.name.clone()));
        push_member(
            &mut members,
            "ssml_gender",
            Json::String(self.ssml_gender.as_wire_str().to_owned()),
        );
        push_member(
            &mut members,
            "natural_sample_rate_hertz",
            Json::Int(self.natural_sample_rate_hertz as i64),
        );
        proof {
            lemma_object_view(members);
            lemma_voice_description_members(self@);
            assert(members_view(members@) =~= written(self@.fields()));
        }
        Json::Object(members)
    }
}

/// The catalog of voices that the service lists, in the order in which it
/// lists them.
#[derive(Clone, Debug, PartialEq, Eq)]
pub struct ListVoicesResponse {
    pub voices: Vec<VoiceDescription>,
}

/// The mathematical value of a [`ListVoicesResponse`].
pub struct ListVoicesResponseView {
    pub voices: Seq<VoiceDescriptionView>,
}

/// The values of a list of voice descriptions, in order.
pub open spec fn voices_view(voices: Seq<VoiceDescription>) -> Seq<VoiceDescriptionView> {
    Seq::new(voices.len(), |i: int| voices[i]@)
}

impl View for ListVoicesResponse {
    type V = ListVoicesResponseView;

    open spec fn view(&self) -> ListVoicesResponseView {
        ListVoicesResponseView { voices: voices_view(self.voices@) }
    }
}

/// The voice descriptions that the elements of an array stand for, in order,
/// where each element stands for one.
pub open spec fn decoded_voices(items: Seq<JsonValue>) -> Option<Seq<VoiceDescriptionView>> {
    if forall|i: int| 0 <= i < items.len() ==> decoded_voice(#[trigger] items[i]) is Some {
        Some(Seq::new(items.len(), |i: int| decoded_voice(items[i])->Some_0))
    } else {
        None
    }
}

/// The catalog that a document stands for: an object whose field `voices` is
/// an array of voice descriptions.
pub open spec fn decoded_catalog(doc: JsonValue) -> Option<ListVoicesResponseView> {
    match doc {
        JsonValue::Object(members) => match field(members, "voices"@, "voices"@) {
            Some(JsonValue::Array(items)) => match decoded_voices(items) {
                Some(voices) => Some(ListVoicesResponseView { voices }),
                None => None,
            },
            _ => None,
        },
        _ => None,
    }
}

/// Reads the voice descriptions of an array, where each element is one.
fn voices_of(items: &Vec<Json>) -> (read: Option<Vec<VoiceDescription>>)
    ensures
        match read {
            Some(list) => decoded_voices(items_view(items@)) == Some(voices_view(list@)),
            None => decoded_voices(items_view(items@)) is None,
        },
{
    let ghost values = items_view(items@);
    let mut list: Vec<VoiceDescription> = Vec::new();
    let mut i: usize = 0;
    while i < items.len()
        invariant
            0 <= i <= items.len(),
            values == items_view(items@),
            list@.len() == i,
            forall|j: int| 0 <= j < i ==> decoded_voice(#[trigger] values[j]) is Some,
            forall|j: int| 0 <= j < i ==> list@[j]@ == decoded_voice(values[j])->Some_0,
        decreases items.len() - i,
    {
        match VoiceDescription::from_json(&items[i]) {
            Ok(voice) => {
                list.push(voice);
            },
            Err(_) => {
                assert(decoded_voice(values[i as int]) is None);
                return None;
            },
        }
        i += 1;
    }
    assert(voices_view(list@) =~= decoded_voices(values)->Some_0);
    Some(list)
}

impl ListVoicesResponseView {
    /// The document written for the catalog: the one member `voices`, the
    /// array of the descriptions' documents in order.
    pub open spec fn document(self) -> JsonValue {
        JsonValue::Object(
            member(
                "voices"@,
                JsonValue::Array(Seq::new(self.voices.len(), |i: int| self.voices[i].document())),
            ),
        )
    }
}

impl ListVoicesResponse {
    /// Reads a catalog from a document.
    pub fn from_json(doc: &Json) -> (read: Result<ListVoicesResponse, TtsError>)
        ensures
            match read {
                Ok(catalog) => decoded_catalog(doc@) == Some(catalog@),
                Err(error) => error == TtsError::Decode && decoded_catalog(doc@) is None,
            },
    {
        match doc {
            Json::Object(members) => {
                proof {
                    lemma_object_view(*members);
                }
                match find_field(members, "voices", "voices") {
                    Some(Json::Array(items)) => {
                        proof {
                            lemma_array_view(*items);
                        }
                        match voices_of(items) {
                            Some(voices) => Ok(ListVoicesResponse { voices }),
                            None => Err(TtsError::Decode),
                        }
                    },
                    _ => Err(TtsError::Decode),
                }
            },
            _ => Err(TtsError::Decode),
        }
    }

    /// Reads a catalog from the bytes of a response body. Of a key that the
    /// text writes twice, the later value counts.
    pub fn from_slice(bytes: &[u8]) -> (read: Result<ListVoicesResponse, TtsError>)
        ensures
            match read {
                Ok(catalog) => parsed_document(bytes@) is Some && decoded_catalog(
                    parsed_document(bytes@)->Some_0,
                ) == Some(catalog@),
                Err(error) => error == TtsError::Decode && (parsed_document(bytes@) is None
                    || decoded_catalog(parsed_document(bytes@)->Some_0) is None),
            },
    {
        match Json::parse(bytes) {
            Ok(doc) => ListVoicesResponse::from_json(&doc),
            Err(error) => Err(error),
        }
    }

    /// The document that stands for the catalog.
    pub fn to_json(&self) -> (doc: Json)
        ensures
            doc@ == self@.document(),
    {
        let mut elements: Vec<Json> = Vec::new();
        let mut i: usize = 0;
        while i < self.voices.len()
            invariant
                0 <= i <= self.voices.len(),
                elements@.len() == i,
                forall|j: int| 0 <= j < i ==> elements@[j]@ == self.voices@[j]@.document(),
            decreases self.voices.len() - i,
        {
            elements.push(self.voices[i].to_json());
            i += 1;
        }
        proof {
            lemma_array_view(elements);
            assert(items_view(elements@) =~= Seq::new(
                self@.voices.len(),
                |i: int| self@.voices[i].document(),
            ));
        }
        let mut members: Vec<(String, Json)> = Vec::new();
        push_member(&mut members, "voices", Json::Array(elements));
        proof {
            lemma_object_view(members);
            assert(members_view(members@) =~= self@.document()->Object_0);
        }
        Json::Object(members)
    }

    /// The catalog as indented JSON text, for display.
    pub fn as_json(&self) -> (text: Result<String, TtsError>)
        ensures
            text is Ok,
            text->Ok_0@ == pretty_text(self@.document()),
    {
        Ok(self.to_json().to_pretty_text())
    }
}

/// A catalog that is read from a document has as many voices as the
/// document's array has elements, and each voice is the one that the element
/// at its place stands for.
pub proof fn lemma_catalog_keeps_order_and_count(doc: JsonValue)
    requires
        decoded_catalog(doc) is Some,
    ensures
        doc is Object,
        field(doc->Object_0, "voices"@, "voices"@) matches Some(JsonValue::Array(items)) && {
            let voices = decoded_catalog(doc)->Some_0.voices;
            &&& voices.len() == items.len()
            &&& forall|i: int|
                0 <= i < items.len() ==> decoded_voice(#[trigger] items[i]) == Some(voices[i])
        },
{
}

/// Reading the document written for a catalog gives the catalog back.
pub proof fn lemma_catalog_round_trip(catalog: ListVoicesResponseView)
    ensures
        decoded_catalog(catalog.document()) == Some(catalog),
{
    let items = Seq::new(catalog.voices.len(), |i: int| catalog.voices[i].document());
    lemma_field_of_one("voices"@, Some(JsonValue::Array(items)), "voices"@, "voices"@);
    assert forall|i: int| 0 <= i < items.len() implies decoded_voice(#[trigger] items[i]) == Some(
        catalog.voices[i],
    ) by {
        lemma_voice_description_round_trip(catalog.voices[i]);
    }
    assert(decoded_voices(items)->Some_0 =~= catalog.voices);
}

/// The lengths of the names and aliases of the fields of a response, and the
/// first character of the two that are equally long: enough to tell each
/// from every other.
proof fn lemma_field_names()
    ensures
        "audio_content"@.len() == 13 && "audio_content"@[0] == 'a',
        "audioContent"@.len() == 12,
        "language_codes"@.len() == 14,
        "languageCodes"@.len() == 13 && "languageCodes"@[0] == 'l',
        "name"@.len() == 4,
        "ssml_gender"@.len() == 11,
        "ssmlGender"@.len() == 10,
        "natural_sample_rate_hertz"@.len() == 25,
        "naturalSampleRateHertz"@.len() == 22,
{
    reveal_strlit("audio_content");
    reveal_strlit("audioContent");
    reveal_strlit("language_codes");
    reveal_strlit("languageCodes");
    reveal_strlit("name");
    reveal_strlit("ssml_gender");
    reveal_strlit("ssmlGender");
    reveal_strlit("natural_sample_rate_hertz");
    reveal_strlit("naturalSampleRateHertz");
}

/// The other name of a field: the alias of a name and the name of an alias.
/// A key that names no field of a response has no other name.
pub open spec fn other_name(key: Seq<char>) -> Seq<char> {
    if key == "audio_content"@ {
        "audioContent"@
    } else if key == "audioContent"@ {
        "audio_content"@
    } else if key == "language_codes"@ {
        "languageCodes"@
    } else if key == "languageCodes"@ {
        "language_codes"@
    } else if key == "ssml_gender"@ {
        "ssmlGender"@
    } else if key == "ssmlGender"@ {
        "ssml_gender"@
    } else if key == "natural_sample_rate_hertz"@ {
        "naturalSampleRateHertz"@
    } else if key == "naturalSampleRateHertz"@ {
        "natural_sample_rate_hertz"@
    } else {
        key
    }
}

/// The members with the key of the one at `i` changed for its other name.
pub open spec fn renamed(members: Seq<(Seq<char>, JsonValue)>, i: int) -> Seq<
    (Seq<char>, JsonValue),
> {
    members.update(i, (other_name(members[i].0), members[i].1))
}

/// A field is read alike under its name and under its alias: writing any
/// member of a body under its other name changes nothing in what is read.
pub proof fn lemma_either_name_reads_the_same(members: Seq<(Seq<char>, JsonValue)>, i: int)
    requires
        0 <= i < members.len(),
    ensures
        decoded_response(JsonValue::Object(renamed(members, i))) == decoded_response(
            JsonValue::Object(members),
        ),
        decoded_voice(JsonValue::Object(renamed(members, i))) == decoded_voice(
            JsonValue::Object(members),
        ),
{
    lemma_field_names();
    let changed = renamed(members, i);
    lemma_field_by_either_name(changed, members, "audio_content"@, "audioContent"@);
    lemma_field_by_either_name(changed, members, "language_codes"@, "languageCodes"@);
    lemma_field_by_either_name(changed, members, "name"@, "name"@);
    lemma_field_by_either_name(changed, members, "ssml_gender"@, "ssmlGender"@);
    lemma_field_by_either_name(
        changed,
        members,
        "natural_sample_rate_hertz"@,
        "naturalSampleRateHertz"@,
    );
}

/// Whether a key is the name, or the alias, of a field of a response.
pub open spec fn is_field_name(key: Seq<char>) -> bool {
    key == "name"@ || other_name(key) != key
}

/// Members that carry no name of a field are passed over: what is read from
/// a body is read from the body with such members after it.
pub proof fn lemma_other_members_are_passed_over(
    members: Seq<(Seq<char>, JsonValue)>,
    others: Seq<(Seq<char>, JsonValue)>,
)
    requires
        forall|j: int| 0 <= j < others.len() ==> !is_field_name((#[trigger] others[j]).0),
    ensures
        decoded_response(JsonValue::Object(members + others)) == decoded_response(
            JsonValue::Object(members),
        ),
        decoded_voice(JsonValue::Object(members + others)) == decoded_voice(
            JsonValue::Object(members),
        ),
{
    lemma_field_names();
    lemma_field_skips_right(members, others, "audio_content"@, "audioContent"@);
    lemma_field_skips_right(members, others, "language_codes"@, "languageCodes"@);
    lemma_field_skips_right(members, others, "name"@, "name"@);
    lemma_field_skips_right(members, others, "ssml_gender"@, "ssmlGender"@);
    lemma_field_skips_right(
        members,
        others,
        "natural_sample_rate_hertz"@,
        "naturalSampleRateHertz"@,
    );
}

/// A body whose one member is the audio content, under either name, is read
/// as that content.
pub proof fn lemma_response_of_audio_content(key: Seq<char>, content: Seq<char>)
    requires
        key == "audio_content"@ || key == "audioContent"@,
    ensures
        decoded_response(JsonValue::Object(member(key, JsonValue::String(content)))) == Some(
            TtsResponseView { audio_content: content },
        ),
{
    lemma_field_of_one(key, Some(JsonValue::String(content)), "audio_content"@, "audioContent"@);
}

} // verus!
