//! The voices of American English that the service is known to offer, by
//! name. The list is a convenience written down once: it is not checked
//! against the service's catalog and may lag behind it.

use crate::voice_props::{SsmlVoiceGender, VoiceProps, VoicePropsView};
use vstd::prelude::*;

verus! {

/// A voice of American English: its quality tier, Standard or WaveNet, and
/// its letter.
#[derive(Clone, Copy, Debug, PartialEq, Eq, Structural)]
pub enum EnUsVoices {
    EnUsWavenetA,
    EnUsWavenetB,
    EnUsWavenetC,
    EnUsWavenetD,
    EnUsWavenetE,
    EnUsWavenetF,
    EnUsWavenetG,
    EnUsWavenetH,
    EnUsWavenetI,
    EnUsWavenetJ,
    EnUsStandardA,
    EnUsStandardB,
    EnUsStandardC,
    EnUsStandardD,
    EnUsStandardE,
    EnUsStandardF,
    EnUsStandardG,
    EnUsStandardH,
    EnUsStandardI,
    EnUsStandardJ,
}

impl EnUsVoices {
    /// The name of the voice's quality tier.
    pub open spec fn tier_name(self) -> Seq<char> {
        match self {
            EnUsVoices::EnUsStandardA
            | EnUsVoices::EnUsStandardB
            | EnUsVoices::EnUsStandardC
            | EnUsVoices::EnUsStandardD
            | EnUsVoices::EnUsStandardE
            | EnUsVoices::EnUsStandardF
            | EnUsVoices::EnUsStandardG
            | EnUsVoices::EnUsStandardH
            | EnUsVoices::EnUsStandardI
            | EnUsVoices::EnUsStandardJ => "Standard"@,
            _ => "Wavenet"@,
        }
    }

    /// The letter of the voice within its tier.
    pub open spec fn letter(self) -> char {
        match self {
            EnUsVoices::EnUsStandardA | EnUsVoices::EnUsWavenetA => 'A',
            EnUsVoices::EnUsStandardB | EnUsVoices::EnUsWavenetB => 'B',
            EnUsVoices::EnUsStandardC | EnUsVoices::EnUsWavenetC => 'C',
            EnUsVoices::EnUsStandardD | EnUsVoices::EnUsWavenetD => 'D',
            EnUsVoices::EnUsStandardE | EnUsVoices::EnUsWavenetE => 'E',
            EnUsVoices::EnUsStandardF | EnUsVoices::EnUsWavenetF => 'F',
            EnUsVoices::EnUsStandardG | EnUsVoices::EnUsWavenetG => 'G',
            EnUsVoices::EnUsStandardH | EnUsVoices::EnUsWavenetH => 'H',
            EnUsVoices::EnUsStandardI | EnUsVoices::EnUsWavenetI => 'I',
            EnUsVoices::EnUsStandardJ | EnUsVoices::EnUsWavenetJ => 'J',
        }
    }

    /// The gender of the voice, which goes by its letter in both tiers.
    pub open spec fn gender(self) -> SsmlVoiceGender {
        let letter = self.letter();
        if letter == 'A' || letter == 'B' || letter == 'D' || letter == 'I' || letter == 'J' {
            SsmlVoiceGender::Male
        } else {
            SsmlVoiceGender::Female
        }
    }

    /// The name of the voice in the service's catalog: the language, the
    /// tier and the letter, joined by hyphens.
    pub open spec fn voice_name(self) -> Seq<char> {
        "en-US-"@ + self.tier_name() + "-"@ + seq![self.letter()]
    }

    /// The selection that asks for the voice: its language, its name and its
    /// gender, all three set.
    pub open spec fn voice_props(self) -> VoicePropsView {
        VoicePropsView {
            language_code: "en-US"@,
            name: Some(self.voice_name()),
            ssml_gender: Some(self.gender()),
        }
    }

    /// The selection that asks for the voice.
    pub fn as_voice_prop(&self) -> (voice: VoiceProps)
        ensures
            voice@ == self.voice_props(),
    {
        proof {
            lemma_standard_names();
            lemma_wavenet_names();
        }
        match self {
            // Standard
            EnUsVoices::EnUsStandardA => {
                VoiceProps::with_all("en-US", "en-US-Standard-A", SsmlVoiceGender::Male)
            },
            EnUsVoices::EnUsStandardB => {
                VoiceProps::with_all("en-US", "en-US-Standard-B", SsmlVoiceGender::Male)
            },
            EnUsVoices::EnUsStandardC => {
                VoiceProps::with_all("en-US", "en-US-Standard-C", SsmlVoiceGender::Female)
            },
            EnUsVoices::EnUsStandardD => {
                VoiceProps::with_all("en-US", "en-US-Standard-D", SsmlVoiceGender::Male)
            },
            EnUsVoices::EnUsStandardE => {
                VoiceProps::with_all("en-US", "en-US-Standard-E", SsmlVoiceGender::Female)
            },
            EnUsVoices::EnUsStandardF => {
                VoiceProps::with_all("en-US", "en-US-Standard-F", SsmlVoiceGender::Female)
            },
            EnUsVoices::EnUsStandardG => {
                VoiceProps::with_all("en-US", "en-US-Standard-G", SsmlVoiceGender::Female)
            },
            EnUsVoices::EnUsStandardH => {
                VoiceProps::with_all("en-US", "en-US-Standard-H", SsmlVoiceGender::Female)
            },
            EnUsVoices::EnUsStandardI => {
                VoiceProps::with_all("en-US", "en-US-Standard-I", SsmlVoiceGender::Male)
            },
            EnUsVoices::EnUsStandardJ => {
                VoiceProps::with_all("en-US", "en-US-Standard-J", SsmlVoiceGender::Male)
            },
            // Wavenet
            EnUsVoices::EnUsWavenetA => {
                VoiceProps::with_all("en-US", "en-US-Wavenet-A", SsmlVoiceGender::Male)
            },
            EnUsVoices::EnUsWavenetB => {
                VoiceProps::with_all("en-US", "en-US-Wavenet-B", SsmlVoiceGender::Male)
            },
            EnUsVoices::EnUsWavenetC => {
                VoiceProps::with_all("en-US", "en-US-Wavenet-C", SsmlVoiceGender::Female)
            },
            EnUsVoices::EnUsWavenetD => {
                VoiceProps::with_all("en-US", "en-US-Wavenet-D", SsmlVoiceGender::Male)
            },
            EnUsVoices::EnUsWavenetE => {
                VoiceProps::with_all("en-US", "en-US-Wavenet-E", SsmlVoiceGender::Female)
            },
            EnUsVoices::EnUsWavenetF => {
                VoiceProps::with_all("en-US", "en-US-Wavenet-F", SsmlVoiceGender::Female)
            },
            EnUsVoices::EnUsWavenetG => {
                VoiceProps::with_all("en-US", "en-US-Wavenet-G", SsmlVoiceGender::Female)
            },
            EnUsVoices::EnUsWavenetH => {
                VoiceProps::with_all("en-US", "en-US-Wavenet-H", SsmlVoiceGender::Female)
            },
            EnUsVoices::EnUsWavenetI => {
                VoiceProps::with_all("en-US", "en-US-Wavenet-I", SsmlVoiceGender::Male)
            },
            EnUsVoices::EnUsWavenetJ => {
                VoiceProps::with_all("en-US", "en-US-Wavenet-J", SsmlVoiceGender::Male)
            },
        }
    }
}

/// The catalog names of the Standard voices are made of the language, the
/// tier and the letter.
proof fn lemma_standard_names()
    ensures
        "en-US-Standard-A"@ == EnUsVoices::EnUsStandardA.voice_name(),
        "en-US-Standard-B"@ == EnUsVoices::EnUsStandardB.voice_name(),
        "en-US-Standard-C"@ == EnUsVoices::EnUsStandardC.voice_name(),
        "en-US-Standard-D"@ == EnUsVoices::EnUsStandardD.voice_name(),
        "en-US-Standard-E"@ == EnUsVoices::EnUsStandardE.voice_name(),
        "en-US-Standard-F"@ == EnUsVoices::EnUsStandardF.voice_name(),
        "en-US-Standard-G"@ == EnUsVoices::EnUsStandardG.voice_name(),
        "en-US-Standard-H"@ == EnUsVoices::EnUsStandardH.voice_name(),
        "en-US-Standard-I"@ == EnUsVoices::EnUsStandardI.voice_name(),
        "en-US-Standard-J"@ == EnUsVoices::EnUsStandardJ.voice_name(),
{
    reveal_strlit("en-US-");
    reveal_strlit("-");
    reveal_strlit("Standard");
    reveal_strlit("en-US-Standard-A");
    reveal_strlit("en-US-Standard-B");
    reveal_strlit("en-US-Standard-C");
    reveal_strlit("en-US-Standard-D");
    reveal_strlit("en-US-Standard-E");
    reveal_strlit("en-US-Standard-F");
    reveal_strlit("en-US-Standard-G");
    reveal_strlit("en-US-Standard-H");
    reveal_strlit("en-US-Standard-I");
    reveal_strlit("en-US-Standard-J");
    assert("en-US-Standard-A"@ =~= EnUsVoices::EnUsStandardA.voice_name());
    assert("en-US-Standard-B"@ =~= EnUsVoices::EnUsStandardB.voice_name());
    assert("en-US-Standard-C"@ =~= EnUsVoices::EnUsStandardC.voice_name());
    assert("en-US-Standard-D"@ =~= EnUsVoices::EnUsStandardD.voice_name());
    assert("en-US-Standard-E"@ =~= EnUsVoices::EnUsStandardE.voice_name());
    assert("en-US-Standard-F"@ =~= EnUsVoices::EnUsStandardF.voice_name());
    assert("en-US-Standard-G"@ =~= EnUsVoices::EnUsStandardG.voice_name());
    assert("en-US-Standard-H"@ =~= EnUsVoices::EnUsStandardH.voice_name());
    assert("en-US-Standard-I"@ =~= EnUsVoices::EnUsStandardI.voice_name());
    assert("en-US-Standard-J"@ =~= EnUsVoices::EnUsStandardJ.voice_name());
}

/// The catalog names of the Wavenet voices are made of the language, the
/// tier and the letter.
proof fn lemma_wavenet_names()
    ensures
        "en-US-Wavenet-A"@ == EnUsVoices::EnUsWavenetA.voice_name(),
        "en-US-Wavenet-B"@ == EnUsVoices::EnUsWavenetB.voice_name(),
        "en-US-Wavenet-C"@ == EnUsVoices::EnUsWavenetC.voice_name(),
        "en-US-Wavenet-D"@ == EnUsVoices::EnUsWavenetD.voice_name(),
        "en-US-Wavenet-E"@ == EnUsVoices::EnUsWavenetE.voice_name(),
        "en-US-Wavenet-F"@ == EnUsVoices::EnUsWavenetF.voice_name(),
        "en-US-Wavenet-G"@ == EnUsVoices::EnUsWavenetG.voice_name(),
        "en-US-Wavenet-H"@ == EnUsVoices::EnUsWavenetH.voice_name(),
        "en-US-Wavenet-I"@ == EnUsVoices::EnUsWavenetI.voice_name(),
        "en-US-Wavenet-J"@ == EnUsVoices::EnUsWavenetJ.voice_name(),
{
    reveal_strlit("en-US-");
    reveal_strlit("-");
    reveal_strlit("Wavenet");
    reveal_strlit("en-US-Wavenet-A");
    reveal_strlit("en-US-Wavenet-B");
    reveal_strlit("en-US-Wavenet-C");
    reveal_strlit("en-US-Wavenet-D");
    reveal_strlit("en-US-Wavenet-E");
    reveal_strlit("en-US-Wavenet-F");
    reveal_strlit("en-US-Wavenet-G");
    reveal_strlit("en-US-Wavenet-H");
    reveal_strlit("en-US-Wavenet-I");
    reveal_strlit("en-US-Wavenet-J");
    assert("en-US-Wavenet-A"@ =~= EnUsVoices::EnUsWavenetA.voice_name());
    assert("en-US-Wavenet-B"@ =~= EnUsVoices::EnUsWavenetB.voice_name());
    assert("en-US-Wavenet-C"@ =~= EnUsVoices::EnUsWavenetC.voice_name());
    assert("en-US-Wavenet-D"@ =~= EnUsVoices::EnUsWavenetD.voice_name());
    assert("en-US-Wavenet-E"@ =~= EnUsVoices::EnUsWavenetE.voice_name());
    assert("en-US-Wavenet-F"@ =~= EnUsVoices::EnUsWavenetF.voice_name());
    assert("en-US-Wavenet-G"@ =~= EnUsVoices::EnUsWavenetG.voice_name());
    assert("en-US-Wavenet-H"@ =~= EnUsVoices::EnUsWavenetH.voice_name());
    assert("en-US-Wavenet-I"@ =~= EnUsVoices::EnUsWavenetI.voice_name());
    assert("en-US-Wavenet-J"@ =~= EnUsVoices::EnUsWavenetJ.voice_name());
}

} // verus!
