//! The voice that speaks, and the JSON document that stands for it on the
//! wire. A field that is left unset is not written at all, so that the
//! service applies its own default.

use crate::fields::{
    distinct_keys, field, has_member, lemma_written_field, lemma_written_push, member,
    optional_member, push_member, push_optional_member, written,
};
use crate::json::{lemma_object_view, members_view, string_value, Json, JsonValue};
use crate::text::same_text;
use vstd::prelude::*;

verus! {

/// The gender hint of a voice.
#[derive(Clone, Copy, Debug, PartialEq, Eq, Structural)]
pub enum SsmlVoiceGender {
    SsmlVoiceGenderUnspecified,
    Male,
    Female,
    Neutral,
}

impl SsmlVoiceGender {
    /// The string that stands for the gender on the wire.
    pub open spec fn wire_name(self) -> Seq<char> {
        match self {
            SsmlVoiceGender::SsmlVoiceGenderUnspecified => "SSML_VOICE_GENDER_UNSPECIFIED"@,
            SsmlVoiceGender::Male => "MALE"@,
            SsmlVoiceGender::Female => "FEMALE"@,
            SsmlVoiceGender::Neutral => "NEUTRAL"@,
        }
    }

    /// The gender that a string of the wire stands for, where it stands for
    /// one: the gender that has it as its string.
    pub open spec fn from_wire_name(name: Seq<char>) -> Option<SsmlVoiceGender> {
        if exists|gender: SsmlVoiceGender| gender.wire_name() == name {
            Some(choose|gender: SsmlVoiceGender| gender.wire_name() == name)
        } else {
            None
        }
    }

    /// The string that stands for the gender on the wire.
    pub fn as_wire_str(&self) -> (name: &'static str)
        ensures
            name@ == self.wire_name(),
    {
        match self {
            SsmlVoiceGender::SsmlVoiceGenderUnspecified => "SSML_VOICE_GENDER_UNSPECIFIED",
            SsmlVoiceGender::Male => "MALE",
            SsmlVoiceGender::Female => "FEMALE",
            SsmlVoiceGender::Neutral => "NEUTRAL",
        }
    }

    /// Reads a gender from its string of the wire.
    pub fn from_wire_str(name: &str) -> (gender: Option<SsmlVoiceGender>)
        ensures
            gender == Self::from_wire_name(name@),
    {
        proof {
            lemma_gender_wire_names_differ();
        }
        if same_text(name, "SSML_VOICE_GENDER_UNSPECIFIED") {
            assert(SsmlVoiceGender::SsmlVoiceGenderUnspecified.wire_name() == name@);
            Some(SsmlVoiceGender::SsmlVoiceGenderUnspecified)
        } else if same_text(name, "MALE") {
            assert(SsmlVoiceGender::Male.wire_name() == name@);
            Some(SsmlVoiceGender::Male)
        } else if same_text(name, "FEMALE") {
            assert(SsmlVoiceGender::Female.wire_name() == name@);
            Some(SsmlVoiceGender::Female)
        } else if same_text(name, "NEUTRAL") {
            assert(SsmlVoiceGender::Neutral.wire_name() == name@);
            Some(SsmlVoiceGender::Neutral)
        } else {
            assert forall|other: SsmlVoiceGender| other.wire_name() != name@ by {
                match other {
                    SsmlVoiceGender::SsmlVoiceGenderUnspecified => {},
                    SsmlVoiceGender::Male => {},
                    SsmlVoiceGender::Female => {},
                    SsmlVoiceGender::Neutral => {},
                }
            }
            None
        }
    }
}

/// No two genders share a string of the wire.
pub proof fn lemma_gender_wire_names_differ()
    ensures
        forall|a: SsmlVoiceGender, b: SsmlVoiceGender| a.wire_name() == b.wire_name() ==> a == b,
{
    reveal_strlit("SSML_VOICE_GENDER_UNSPECIFIED");
    reveal_strlit("MALE");
    reveal_strlit("FEMALE");
    reveal_strlit("NEUTRAL");
    assert("SSML_VOICE_GENDER_UNSPECIFIED"@.len() == 29);
    assert("MALE"@.len() == 4);
    assert("FEMALE"@.len() == 6);
    assert("NEUTRAL"@.len() == 7);
}

/// A string of the wire stands for a gender exactly when it is that
/// gender's own string: the two mappings are each other's inverse.
pub proof fn lemma_gender_wire_names(value: SsmlVoiceGender, name: Seq<char>)
    ensures
        SsmlVoiceGender::from_wire_name(value.wire_name()) == Some(value),
        SsmlVoiceGender::from_wire_name(name) == Some(value) <==> name == value.wire_name(),
{
    lemma_gender_wire_names_differ();
}

/// The voice that speaks: a language, and optionally a voice's name and a
/// gender.
#[derive(Clone, Debug, PartialEq, Eq)]
pub struct VoiceProps {
    language_code: String,
    name: Option<String>,
    ssml_gender: Option<SsmlVoiceGender>,
}

/// The mathematical value of a [`VoiceProps`].
pub struct VoicePropsView {
    pub language_code: Seq<char>,
    pub name: Option<Seq<char>>,
    pub ssml_gender: Option<SsmlVoiceGender>,
}

impl VoicePropsView {
    /// The fields of a voice, in the order in which they are written:
    /// `language_code`, which is always set, then `name` and `ssml_gender`.
    pub open spec fn fields(self) -> Seq<(Seq<char>, Option<JsonValue>)> {
        seq![
            ("language_code"@, Some(JsonValue::String(self.language_code))),
            ("name"@, string_value(self.name)),
            ("ssml_gender"@, string_value(gender_name(self.ssml_gender))),
        ]
    }

    /// The document written for the voice: an object of the fields that are
    /// set.
    pub open spec fn document(self) -> JsonValue {
        JsonValue::Object(written(self.fields()))
    }
}

/// The string that stands for a gender on the wire, where a gender is set.
pub open spec fn gender_name(gender: Option<SsmlVoiceGender>) -> Option<Seq<char>> {
    match gender {
        Some(g) => Some(g.wire_name()),
        None => None,
    }
}

impl View for VoiceProps {
    type V = VoicePropsView;

    closed spec fn view(&self) -> VoicePropsView {
        VoicePropsView {
            language_code: self.language_code@,
            name: match self.name {
                Some(name) => Some(name@),
                None => None,
            },
            ssml_gender: self.ssml_gender,
        }
    }
}

impl VoiceProps {
    /// A voice of the given language, with the name and the gender given.
    pub fn new(language_code: String, name: Option<String>, ssml_gender: Option<SsmlVoiceGender>) -> (voice:
        VoiceProps)
        ensures
            voice@.language_code == language_code@,
            voice@.name == match name {
                Some(n) => Some(n@),
                None => None,
            },
            voice@.ssml_gender == ssml_gender,
    {
        VoiceProps { language_code, name, ssml_gender }
    }

    /// A voice of the given language, name and gender, all three set.
    pub fn with_all(language_code: &str, name: &str, ssml_gender: SsmlVoiceGender) -> (voice:
        VoiceProps)
        ensures
            voice@ == (VoicePropsView {
                language_code: language_code@,
                name: Some(name@),
                ssml_gender: Some(ssml_gender),
            }),
    {
        VoiceProps {
            language_code: language_code.to_owned(),
            name: Some(name.to_owned()),
            ssml_gender: Some(ssml_gender),
        }
    }

    /// A female voice of American English, the choice of the voice left to
    /// the service.
    pub fn default_english_female() -> (voice: VoiceProps)
        ensures
            voice@ == (VoicePropsView {
                language_code: "en-US"@,
                name: None,
                ssml_gender: Some(SsmlVoiceGender::Female),
            }),
    {
        VoiceProps {
            language_code: "en-US".to_owned(),
            name: None,
            ssml_gender: Some(SsmlVoiceGender::Female),
        }
    }

    /// The female WaveNet voice `en-US-Wavenet-C` of American English.
    pub fn default_english_female_wavenet() -> (voice: VoiceProps)
        ensures
            voice@ == (VoicePropsView {
                language_code: "en-US"@,
                name: Some("en-US-Wavenet-C"@),
                ssml_gender: Some(SsmlVoiceGender::Female),
            }),
    {
        VoiceProps {
            language_code: "en-US".to_owned(),
            name: Some("en-US-Wavenet-C".to_owned()),
            ssml_gender: Some(SsmlVoiceGender::Female),
        }
    }

    /// A male voice of American English, the choice of the voice left to the
    /// service.
    pub fn default_english_male() -> (voice: VoiceProps)
        ensures
            voice@ == (VoicePropsView {
                language_code: "en-US"@,
                name: None,
                ssml_gender: Some(SsmlVoiceGender::Male),
            }),
    {
        VoiceProps {
            language_code: "en-US".to_owned(),
            name: None,
            ssml_gender: Some(SsmlVoiceGender::Male),
        }
    }

    /// The language of the voice.
    pub fn language_code(&self) -> (code: &String)
        ensures
            code@ == self@.language_code,
    {
        &self.language_code
    }

    /// The name of the voice, where one is set.
    pub fn name(&self) -> (name: Option<&String>)
        ensures
            match name {
                Some(n) => self@.name == Some(n@),
                None => self@.name is None,
            },
    {
        match &self.name {
            Some(name) => Some(name),
            None => None,
        }
    }

    /// The gender of the voice, where one is set.
    pub fn ssml_gender(&self) -> (gender: Option<SsmlVoiceGender>)
        ensures
            gender == self@.ssml_gender,
    {
        self.ssml_gender
    }

    /// The document that stands for the voice on the wire.
    pub fn to_json(&self) -> (doc: Json)
        ensures
            doc@ == self@.document(),
    {
        let mut members: Vec<(String, Json)> = Vec::new();
        push_member(&mut members, "language_code", Json::String(self.language_code.clone()));
        push_optional_member(
            &mut members,
            "name",
            match &self.name {
                Some(name) => Some(Json::String(name.clone())),
                None => None,
            },
        );
        push_optional_member(
            &mut members,
            "ssml_gender",
            match &self.ssml_gender {
                Some(gender) => Some(Json::String(gender.as_wire_str().to_owned())),
                None => None,
            },
        );
        proof {
            lemma_object_view(members);
            lemma_voice_members(self@);
            assert(members_view(members@) =~= written(self@.fields()));
        }
        Json::Object(members)
    }
}

/// The members written for a voice, one after the other.
proof fn lemma_voice_members(voice: VoicePropsView)
    ensures
        written(voice.fields()) == member("language_code"@, JsonValue::String(voice.language_code))
            + optional_member("name"@, string_value(voice.name)) + optional_member(
            "ssml_gender"@,
            string_value(gender_name(voice.ssml_gender)),
        ),
{
    let fields = voice.fields();
    lemma_written_push(Seq::empty(), fields[0].0, fields[0].1);
    lemma_written_push(fields.take(1), fields[1].0, fields[1].1);
    lemma_written_push(fields.take(2), fields[2].0, fields[2].1);
    assert(fields.take(1) =~= Seq::empty().push(fields[0]));
    assert(fields.take(2) =~= fields.take(1).push(fields[1]));
    assert(fields =~= fields.take(2).push(fields[2]));
    assert(written(fields) =~= member("language_code"@, JsonValue::String(voice.language_code))
        + optional_member("name"@, string_value(voice.name)) + optional_member(
        "ssml_gender"@,
        string_value(gender_name(voice.ssml_gender)),
    ));
}

/// No two fields of a voice share a key.
pub proof fn lemma_voice_keys_distinct(voice: VoicePropsView)
    ensures
        distinct_keys(voice.fields()),
{
    reveal_strlit("language_code");
    reveal_strlit("name");
    reveal_strlit("ssml_gender");
    assert("language_code"@.len() == 13);
    assert("name"@.len() == 4);
    assert("ssml_gender"@.len() == 11);
}

/// A field of a voice is written exactly when it is set, and then once and
/// with its value.
pub proof fn lemma_voice_field_written_when_set(voice: VoicePropsView, i: int)
    requires
        0 <= i < voice.fields().len(),
    ensures
        has_member(voice.document()->Object_0, voice.fields()[i].0) <==> voice.fields()[i].1
            is Some,
        field(voice.document()->Object_0, voice.fields()[i].0, voice.fields()[i].0)
            == voice.fields()[i].1,
{
    lemma_voice_keys_distinct(voice);
    lemma_written_field(voice.fields(), i, voice.fields()[i].0);
}

/// A voice with nothing but its language is written as that one member.
pub proof fn lemma_minimal_voice_document(voice: VoicePropsView)
    requires
        voice.name is None,
        voice.ssml_gender is None,
    ensures
        voice.document() == JsonValue::Object(
            member("language_code"@, JsonValue::String(voice.language_code)),
        ),
{
    lemma_voice_members(voice);
    assert(voice.document()->Object_0 =~= member(
        "language_code"@,
        JsonValue::String(voice.language_code),
    ));
}

} // verus!
