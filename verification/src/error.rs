//! The ways in which a call of this library can fail.

use vstd::prelude::*;

verus! {

/// Why a call failed. Every failure is final for the call that met it:
/// nothing is retried and nothing is replaced by a default.
#[derive(Clone, Copy, Debug, PartialEq, Eq, Structural)]
pub enum TtsError {
    /// The transport could not complete the round trip to the service.
    Transport,
    /// A response body was not JSON of the expected shape.
    Decode,
    /// An audio payload was not valid base64.
    MalformedBase64,
    /// A voice description without any language code cannot become a voice
    /// selection.
    EmptyLanguageCodes,
    /// An endpoint address could not be read as an absolute URL.
    InvalidUrl,
}

impl TtsError {
    /// The text that describes this failure.
    pub open spec fn message_text(self) -> Seq<char> {
        match self {
            TtsError::Transport => "the request could not be carried out"@,
            TtsError::Decode => "the response is not JSON of the expected shape"@,
            TtsError::MalformedBase64 => "the audio content is not valid base64"@,
            TtsError::EmptyLanguageCodes =>
                "Failed to convert Voice description to voice properties"@,
            TtsError::InvalidUrl => "the endpoint is not an absolute URL"@,
        }
    }

    /// A description of the failure.
    pub fn message(&self) -> (text: String)
        ensures
            text@ == self.message_text(),
    {
        match self {
            TtsError::Transport => "the request could not be carried out".to_owned(),
            TtsError::Decode => "the response is not JSON of the expected shape".to_owned(),
            TtsError::MalformedBase64 => "the audio content is not valid base64".to_owned(),
            TtsError::EmptyLanguageCodes =>
                "Failed to convert Voice description to voice properties".to_owned(),
            TtsError::InvalidUrl => "the endpoint is not an absolute URL".to_owned(),
        }
    }
}

} // verus!
