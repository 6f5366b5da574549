//! The form of the audio to return, and the JSON document that stands for it
//! on the wire. A field that is left unset is not written at all, so that
//! the service applies its own default.

use crate::fields::{
    distinct_keys, field, has_member, lemma_written_field, lemma_written_push, member,
    optional_member, push_member, push_optional_member, written,
};
use crate::json::{
    int_value, lemma_object_view, members_view, strings_document, strings_value, Json, JsonValue,
};
use crate::text::{same_text, strings_view};
use vstd::prelude::*;

verus! {

/// The encoding of the audio that the service returns.
#[derive(Clone, Copy, Debug, PartialEq, Eq, Structural)]
pub enum AudioEncoding {
    AudioEncodingUnspecified,
    Linear16,
    Mp3,
    OggOpus,
}

impl AudioEncoding {
    /// The string that stands for the encoding on the wire.
    pub open spec fn wire_name(self) -> Seq<char> {
        match self {
            AudioEncoding::AudioEncodingUnspecified => "AUDIO_ENCODING_UNSPECIFIED"@,
            AudioEncoding::Linear16 => "LINEAR16"@,
            AudioEncoding::Mp3 => "MP3"@,
            AudioEncoding::OggOpus => "OGG_OPUS"@,
        }
    }

    /// The encoding that a string of the wire stands for, where it stands for
    /// one: the encoding that has it as its string.
    pub open spec fn from_wire_name(name: Seq<char>) -> Option<AudioEncoding> {
        if exists|encoding: AudioEncoding| encoding.wire_name() == name {
            Some(choose|encoding: AudioEncoding| encoding.wire_name() == name)
        } else {
            None
        }
    }

    /// The string that stands for the encoding on the wire.
    pub fn as_wire_str(&self) -> (name: &'static str)
        ensures
            name@ == self.wire_name(),
    {
        match self {
            AudioEncoding::AudioEncodingUnspecified => "AUDIO_ENCODING_UNSPECIFIED",
            AudioEncoding::Linear16 => "LINEAR16",
            AudioEncoding::Mp3 => "MP3",
            AudioEncoding::OggOpus => "OGG_OPUS",
        }
    }

    /// Reads an encoding from its string of the wire.
    pub fn from_wire_str(name: &str) -> (encoding: Option<AudioEncoding>)
        ensures
            encoding == Self::from_wire_name(name@),
    {
        proof {
            lemma_encoding_wire_names_differ();
        }
        if same_text(name, "AUDIO_ENCODING_UNSPECIFIED") {
            assert(AudioEncoding::AudioEncodingUnspecified.wire_name() == name@);
            Some(AudioEncoding::AudioEncodingUnspecified)
        } else if same_text(name, "LINEAR16") {
            assert(AudioEncoding::Linear16.wire_name() == name@);
            Some(AudioEncoding::Linear16)
        } else if same_text(name, "MP3") {
            assert(AudioEncoding::Mp3.wire_name() == name@);
            Some(AudioEncoding::Mp3)
        } else if same_text(name, "OGG_OPUS") {
            assert(AudioEncoding::OggOpus.wire_name() == name@);
            Some(AudioEncoding::OggOpus)
        } else {
            assert forall|other: AudioEncoding| other.wire_name() != name@ by {
                match other {
                    AudioEncoding::AudioEncodingUnspecified => {},
                    AudioEncoding::Linear16 => {},
                    AudioEncoding::Mp3 => {},
                    AudioEncoding::OggOpus => {},
                }
            }
            None
        }
    }
}

/// No two encodings share a string of the wire.
pub proof fn lemma_encoding_wire_names_differ()
    ensures
        forall|a: AudioEncoding, b: AudioEncoding| a.wire_name() == b.wire_name() ==> a == b,
{
    reveal_strlit("AUDIO_ENCODING_UNSPECIFIED");
    reveal_strlit("LINEAR16");
    reveal_strlit("MP3");
    reveal_strlit("OGG_OPUS");
    assert("AUDIO_ENCODING_UNSPECIFIED"@.len() == 26);
    assert("LINEAR16"@.len() == 8 && "LINEAR16"@[0] == 'L');
    assert("MP3"@.len() == 3);
    assert("OGG_OPUS"@.len() == 8 && "OGG_OPUS"@[0] == 'O');
}

/// A string of the wire stands for an encoding exactly when it is that
/// encoding's own string: the two mappings are each other's inverse.
pub proof fn lemma_encoding_wire_names(value: AudioEncoding, name: Seq<char>)
    ensures
        AudioEncoding::from_wire_name(value.wire_name()) == Some(value),
        AudioEncoding::from_wire_name(name) == Some(value) <==> name == value.wire_name(),
{
    lemma_encoding_wire_names_differ();
}

/// A floating-point setting, as it goes on the wire. JSON has numbers for
/// finite values only: a finite value goes as its JSON number, carried as
/// `serde_json` made it, and a value that is not finite goes as `null`.
#[derive(Clone, Debug, PartialEq)]
pub enum WireNumber {
    Finite(serde_json::Number),
    NotFinite,
}

impl WireNumber {
    /// The document written for the setting: its number, or `null`.
    pub open spec fn document(self) -> JsonValue {
        match self {
            WireNumber::Finite(number) => JsonValue::Number(number),
            WireNumber::NotFinite => JsonValue::Null,
        }
    }

    /// The document that stands for the setting on the wire.
    pub fn to_json(&self) -> (doc: Json)
        ensures
            doc@ == self.document(),
    {
        match self {
            WireNumber::Finite(number) => Json::Number(number.clone()),
            WireNumber::NotFinite => Json::Null,
        }
    }
}

/// The setting, where there is one, as a JSON value.
pub open spec fn wire_number_value(setting: Option<WireNumber>) -> Option<JsonValue> {
    match setting {
        Some(number) => Some(number.document()),
        None => None,
    }
}

/// The form of the audio: its encoding, and optionally the speaking rate, the
/// pitch, the volume gain in dB, the sample rate in Hz and the effects
/// profiles to apply, in order.
#[derive(Clone, Debug, PartialEq)]
pub struct AudioConfig {
    audio_encoding: AudioEncoding,
    speaking_rate: Option<WireNumber>,
    pitch: Option<i32>,
    volume_gain_db: Option<WireNumber>,
    sample_rate_hertz: Option<i32>,
    effects_profile_id: Option<Vec<String>>,
}

/// The mathematical value of an [`AudioConfig`].
pub struct AudioConfigView {
    pub audio_encoding: AudioEncoding,
    pub speaking_rate: Option<WireNumber>,
    pub pitch: Option<i32>,
    pub volume_gain_db: Option<WireNumber>,
    pub sample_rate_hertz: Option<i32>,
    pub effects_profile_id: Option<Seq<Seq<char>>>,
}

impl AudioConfigView {
    /// The fields of a configuration, in the order in which they are
    /// written: `audio_encoding`, which is always set, then the others.
    pub open spec fn fields(self) -> Seq<(Seq<char>, Option<JsonValue>)> {
        seq![
            ("audio_encoding"@, Some(JsonValue::String(self.audio_encoding.wire_name()))),
            ("speaking_rate"@, wire_number_value(self.speaking_rate)),
            ("pitch"@, int_value(self.pitch)),
            ("volume_gain_db"@, wire_number_value(self.volume_gain_db)),
            ("sample_rate_hertz"@, int_value(self.sample_rate_hertz)),
            ("effects_profile_id"@, strings_value(self.effects_profile_id)),
        ]
    }

    /// The document written for the configuration: an object of the fields
    /// that are set.
    pub open spec fn document(self) -> JsonValue {
        JsonValue::Object(written(self.fields()))
    }

    /// Whether nothing but the encoding is set.
    pub open spec fn is_minimal(self) -> bool {
        &&& self.speaking_rate is None
        &&& self.pitch is None
        &&& self.volume_gain_db is None
        &&& self.sample_rate_hertz is None
        &&& self.effects_profile_id is None
    }
}

/// The characters of each string of a list, where there is a list.
pub open spec fn optional_strings_view(items: Option<Vec<String>>) -> Option<Seq<Seq<char>>> {
    match items {
        Some(list) => Some(strings_view(list@)),
        None => None,
    }
}

impl View for AudioConfig {
    type V = AudioConfigView;

    closed spec fn view(&self) -> AudioConfigView {
        AudioConfigView {
            audio_encoding: self.audio_encoding,
            speaking_rate: self.speaking_rate,
            pitch: self.pitch,
            volume_gain_db: self.volume_gain_db,
            sample_rate_hertz: self.sample_rate_hertz,
            effects_profile_id: optional_strings_view(self.effects_profile_id),
        }
    }
}

impl AudioConfig {
    /// A configuration with every field as given.
    pub fn new(
        audio_encoding: AudioEncoding,
        speaking_rate: Option<WireNumber>,
        pitch: Option<i32>,
        volume_gain_db: Option<WireNumber>,
        sample_rate_hertz: Option<i32>,
        effects_profile_id: Option<Vec<String>>,
    ) -> (audio: AudioConfig)
        ensures
            audio@ == (AudioConfigView {
                audio_encoding,
                speaking_rate,
                pitch,
                volume_gain_db,
                sample_rate_hertz,
                effects_profile_id: optional_strings_view(effects_profile_id),
            }),
    {
        AudioConfig {
            audio_encoding,
            speaking_rate,
            pitch,
            volume_gain_db,
            sample_rate_hertz,
            effects_profile_id,
        }
    }

    /// A configuration with the given encoding and nothing else set.
    pub fn default_with_encoding(encoding: AudioEncoding) -> (audio: AudioConfig)
        ensures
            audio@.audio_encoding == encoding,
            audio@.is_minimal(),
    {
        AudioConfig {
            audio_encoding: encoding,
            speaking_rate: None,
            pitch: None,
            volume_gain_db: None,
            sample_rate_hertz: None,
            effects_profile_id: None,
        }
    }

    /// The encoding of the audio.
    pub fn audio_encoding(&self) -> (encoding: AudioEncoding)
        ensures
            encoding == self@.audio_encoding,
    {
        self.audio_encoding
    }

    /// The speaking rate, where one is set.
    pub fn speaking_rate(&self) -> (rate: Option<&WireNumber>)
        ensures
            match rate {
                Some(r) => self@.speaking_rate == Some(*r),
                None => self@.speaking_rate is None,
            },
    {
        match &self.speaking_rate {
            Some(rate) => Some(rate),
            None => None,
        }
    }

    /// The pitch, where one is set.
    pub fn pitch(&self) -> (pitch: Option<i32>)
        ensures
            pitch == self@.pitch,
    {
        self.pitch
    }

    /// The volume gain in dB, where one is set.
    pub fn volume_gain_db(&self) -> (gain: Option<&WireNumber>)
        ensures
            match gain {
                Some(g) => self@.volume_gain_db == Some(*g),
                None => self@.volume_gain_db is None,
            },
    {
        match &self.volume_gain_db {
            Some(gain) => Some(gain),
            None => None,
        }
    }

    /// The sample rate in Hz, where one is set.
    pub fn sample_rate_hertz(&self) -> (rate: Option<i32>)
        ensures
            rate == self@.sample_rate_hertz,
    {
        self.sample_rate_hertz
    }

    /// The effects profiles, where any are set.
    pub fn effects_profile_id(&self) -> (profiles: Option<&Vec<String>>)
        ensures
            match profiles {
                Some(list) => self@.effects_profile_id == Some(strings_view(list@)),
                None => self@.effects_profile_id is None,
            },
    {
        match &self.effects_profile_id {
            Some(list) => Some(list),
            None => None,
        }
    }

    /// The document that stands for the configuration on the wire.
    pub fn to_json(&self) -> (doc: Json)
        ensures
            doc@ == self@.document(),
    {
        let mut members: Vec<(String, Json)> = Vec::new();
        push_member(
            &mut members,
            "audio_encoding",
            Json::String(self.audio_encoding.as_wire_str().to_owned()),
        );
        push_optional_member(
            &mut members,
            "speaking_rate",
            match &self.speaking_rate {
                Some(rate) => Some(rate.to_json()),
                None => None,
            },
        );
        push_optional_member(
            &mut members,
            "pitch",
            match self.pitch {
                Some(pitch) => Some(Json::Int(pitch as i64)),
                None => None,
            },
        );
        push_optional_member(
            &mut members,
            "volume_gain_db",
            match &self.volume_gain_db {
                Some(gain) => Some(gain.to_json()),
                None => None,
            },
        );
        push_optional_member(
            &mut members,
            "sample_rate_hertz",
            match self.sample_rate_hertz {
                Some(rate) => Some(Json::Int(rate as i64)),
                None => None,
            },
        );
        push_optional_member(
            &mut members,
            "effects_profile_id",
            match &self.effects_profile_id {
                Some(profiles) => Some(strings_document(profiles)),
                None => None,
            },
        );
        proof {
            lemma_object_view(members);
            lemma_audio_members(self@);
            assert(members_view(members@) =~= written(self@.fields()));
        }
        Json::Object(members)
    }
}

/// The members written for a configuration, one after the other.
proof fn lemma_audio_members(audio: AudioConfigView)
    ensures
        written(audio.fields()) == member(
            "audio_encoding"@,
            JsonValue::String(audio.audio_encoding.wire_name()),
        ) + optional_member("speaking_rate"@, wire_number_value(audio.speaking_rate)) + optional_member(
            "pitch"@,
            int_value(audio.pitch),
        ) + optional_member("volume_gain_db"@, wire_number_value(audio.volume_gain_db))
            + optional_member("sample_rate_hertz"@, int_value(audio.sample_rate_hertz))
            + optional_member("effects_profile_id"@, strings_value(audio.effects_profile_id)),
{
    let fields = audio.fields();
    lemma_written_push(Seq::empty(), fields[0].0, fields[0].1);
    lemma_written_push(fields.take(1), fields[1].0, fields[1].1);
    lemma_written_push(fields.take(2), fields[2].0, fields[2].1);
    lemma_written_push(fields.take(3), fields[3].0, fields[3].1);
    lemma_written_push(fields.take(4), fields[4].0, fields[4].1);
    lemma_written_push(fields.take(5), fields[5].0, fields[5].1);
    assert(fields.take(1) =~= Seq::empty().push(fields[0]));
    assert(fields.take(2) =~= fields.take(1).push(fields[1]));
    assert(fields.take(3) =~= fields.take(2).push(fields[2]));
    assert(fields.take(4) =~= fields.take(3).push(fields[3]));
    assert(fields.take(5) =~= fields.take(4).push(fields[4]));
    assert(fields =~= fields.take(5).push(fields[5]));
    assert(written(fields) =~= member(
        "audio_encoding"@,
        JsonValue::String(audio.audio_encoding.wire_name()),
    ) + optional_member("speaking_rate"@, wire_number_value(audio.speaking_rate)) + optional_member(
        "pitch"@,
        int_value(audio.pitch),
    ) + optional_member("volume_gain_db"@, wire_number_value(audio.volume_gain_db)) + optional_member(
        "sample_rate_hertz"@,
        int_value(audio.sample_rate_hertz),
    ) + optional_member("effects_profile_id"@, strings_value(audio.effects_profile_id)));
}

/// No two fields of a configuration share a key.
pub proof fn lemma_audio_keys_distinct(audio: AudioConfigView)
    ensures
        distinct_keys(audio.fields()),
{
    reveal_strlit("audio_encoding");
    reveal_strlit("speaking_rate");
    reveal_strlit("pitch");
    reveal_strlit("volume_gain_db");
    reveal_strlit("sample_rate_hertz");
    reveal_strlit("effects_profile_id");
    assert("audio_encoding"@.len() == 14 && "audio_encoding"@[0] == 'a');
    assert("speaking_rate"@.len() == 13);
    assert("pitch"@.len() == 5);
    assert("volume_gain_db"@.len() == 14 && "volume_gain_db"@[0] == 'v');
    assert("sample_rate_hertz"@.len() == 17);
    assert("effects_profile_id"@.len() == 18);
}

/// A field of a configuration is written exactly when it is set, and then
/// once and with its value.
pub proof fn lemma_audio_field_written_when_set(audio: AudioConfigView, i: int)
    requires
        0 <= i < audio.fields().len(),
    ensures
        has_member(audio.document()->Object_0, audio.fields()[i].0) <==> audio.fields()[i].1
            is Some,
        field(audio.document()->Object_0, audio.fields()[i].0, audio.fields()[i].0)
            == audio.fields()[i].1,
{
    lemma_audio_keys_distinct(audio);
    lemma_written_field(audio.fields(), i, audio.fields()[i].0);
}

/// A configuration with nothing but its encoding is written as that one
/// member.
pub proof fn lemma_minimal_audio_document(audio: AudioConfigView)
    requires
        audio.is_minimal(),
    ensures
        audio.document() == JsonValue::Object(
            member("audio_encoding"@, JsonValue::String(audio.audio_encoding.wire_name())),
        ),
{
    lemma_audio_members(audio);
    assert(audio.document()->Object_0 =~= member(
        "audio_encoding"@,
        JsonValue::String(audio.audio_encoding.wire_name()),
    ));
}

} // verus!
