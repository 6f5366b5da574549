//! The body of a synthesis request: the text to speak, the voice that speaks
//! it and the form of the audio, as one JSON document.

use crate::audio_config::{AudioConfig, AudioConfigView};
use crate::fields::{member, push_member};
use crate::json::{lemma_object_view, members_view, Json, JsonValue};
use crate::text_input::{TextInput, TextInputView};
use crate::voice_props::{VoiceProps, VoicePropsView};
use vstd::prelude::*;

verus! {

/// The document that is the body of a synthesis request: the input, the voice
/// and the form of the audio.
pub open spec fn request_document(
    input: TextInputView,
    voice: VoicePropsView,
    audio: AudioConfigView,
) -> JsonValue {
    JsonValue::Object(
        member("input"@, input.document()) + member("voice"@, voice.document()) + member(
            "audioConfig"@,
            audio.document(),
        ),
    )
}

/// The body of a synthesis request, as a document.
pub fn synthesis_request_document(input: &TextInput, voice: &VoiceProps, audio: &AudioConfig) -> (doc:
    Json)
    ensures
        doc@ == request_document(input@, voice@, audio@),
{
    let mut members: Vec<(String, Json)> = Vec::new();
    push_member(&mut members, "input", input.to_json());
    push_member(&mut members, "voice", voice.to_json());
    push_member(&mut members, "audioConfig", audio.to_json());
    proof {
        lemma_object_view(members);
        assert(members_view(members@) =~= request_document(input@, voice@, audio@)->Object_0);
    }
    Json::Object(members)
}

} // verus!
