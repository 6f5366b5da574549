use google_tts::{
    Json, ListVoicesResponse, SsmlVoiceGender, TtsError, TtsResponse, VoiceDescription,
};

fn romanian_voice() -> VoiceDescription {
    VoiceDescription {
        language_codes: vec!["ro-RO".to_owned()],
        name: "ro-RO-Wavenet-A".to_owned(),
        ssml_gender: SsmlVoiceGender::Female,
        natural_sample_rate_hertz: 24000,
    }
}

fn member(key: &str, value: Json) -> (String, Json) {
    (key.to_owned(), value)
}

fn text(value: &str) -> Json {
    Json::String(value.to_owned())
}

#[test]
fn synthesis_response_keeps_the_base64_text() {
    let response = TtsResponse::from_slice(br#"{"audioContent": "testtesttest"}"#).unwrap();
    assert_eq!(response.as_base_64(), "testtesttest".to_owned());
}

#[test]
fn synthesis_response_decodes_the_audio() {
    let response = TtsResponse::from_slice(br#"{"audioContent": "testtesttest"}"#).unwrap();
    assert_eq!(
        response.as_byte_stream(),
        Ok(vec![0xb5, 0xeb, 0x2d, 0xb5, 0xeb, 0x2d, 0xb5, 0xeb, 0x2d])
    );
}

#[test]
fn synthesis_response_decodes_padded_audio() {
    let response = TtsResponse::from_slice(br#"{"audio_content": "aGVsbG8gd29ybGQ="}"#).unwrap();
    assert_eq!(response.as_byte_stream(), Ok(b"hello world".to_vec()));
}

#[test]
fn synthesis_response_with_empty_audio() {
    let response = TtsResponse::from_slice(br#"{"audioContent": ""}"#).unwrap();
    assert_eq!(response.as_base_64(), "");
    assert_eq!(response.as_byte_stream(), Ok(Vec::new()));
}

#[test]
fn malformed_base64_is_an_error_of_its_own() {
    let response = TtsResponse::from_slice(br#"{"audioContent": "not base64!"}"#).unwrap();
    assert_eq!(response.as_base_64(), "not base64!");
    assert_eq!(response.as_byte_stream(), Err(TtsError::MalformedBase64));

    let truncated = TtsResponse::from_slice(br#"{"audioContent": "dGVzd"}"#).unwrap();
    assert_eq!(truncated.as_byte_stream(), Err(TtsError::MalformedBase64));
}

#[test]
fn synthesis_response_accepts_the_field_name_and_its_alias() {
    let by_name = TtsResponse::from_slice(br#"{"audio_content": "YQ=="}"#).unwrap();
    let by_alias = TtsResponse::from_slice(br#"{"audioContent": "YQ=="}"#).unwrap();
    assert_eq!(by_name, by_alias);
    assert_eq!(by_name.as_byte_stream(), Ok(vec![b'a']));
}

#[test]
fn synthesis_response_passes_over_other_members() {
    let response =
        TtsResponse::from_slice(br#"{"timepoints": [], "audioContent": "YQ==", "x": null}"#)
            .unwrap();
    assert_eq!(response.as_base_64(), "YQ==");
}

#[test]
fn synthesis_response_of_another_shape_is_a_decode_error() {
    let bodies: [&[u8]; 9] = [
        b"",
        b"not json",
        b"{\"audioContent\": \"YQ==\"",
        b"{}",
        b"[]",
        b"\"YQ==\"",
        br#"{"audioContent": null}"#,
        br#"{"audioContent": 7}"#,
        br#"{"audio_content": "YQ==", "audioContent": "YQ=="}"#,
    ];
    for body in bodies {
        assert_eq!(TtsResponse::from_slice(body), Err(TtsError::Decode));
    }
}

#[test]
fn synthesis_response_from_a_document() {
    let doc = Json::Object(vec![member("audioContent", text("YQ=="))]);
    assert_eq!(TtsResponse::from_json(&doc).unwrap().as_base_64(), "YQ==");

    let twice = Json::Object(vec![
        member("audioContent", text("YQ==")),
        member("audioContent", text("Yg==")),
    ]);
    assert_eq!(TtsResponse::from_json(&twice), Err(TtsError::Decode));
    assert_eq!(TtsResponse::from_json(&text("YQ==")), Err(TtsError::Decode));
}

#[test]
fn voice_description_converts_to_voice_props() {
    let body = br#"{"languageCodes": ["ro-RO"], "name": "ro-RO-Wavenet-A",
                    "ssmlGender": "FEMALE", "naturalSampleRateHertz": 24000}"#;
    let doc = Json::parse(body).unwrap();
    let voice = VoiceDescription::from_json(&doc).unwrap();
    assert_eq!(voice, romanian_voice());

    let props = voice.try_convert_to_voice_props().unwrap();
    assert_eq!(props.language_code(), "ro-RO");
    assert_eq!(props.name(), Some(&"ro-RO-Wavenet-A".to_owned()));
    assert_eq!(props.ssml_gender(), Some(SsmlVoiceGender::Female));
}

#[test]
fn voice_description_converts_by_its_first_language() {
    let voice = VoiceDescription {
        language_codes: vec!["en-GB".to_owned(), "en-US".to_owned()],
        name: "v".to_owned(),
        ssml_gender: SsmlVoiceGender::Neutral,
        natural_sample_rate_hertz: 8000,
    };
    let props = voice.try_convert_to_voice_props().unwrap();
    assert_eq!(props.language_code(), "en-GB");
    assert_eq!(props.name(), Some(&"v".to_owned()));
    assert_eq!(props.ssml_gender(), Some(SsmlVoiceGender::Neutral));
}

#[test]
fn voice_description_without_a_language_does_not_convert() {
    let voice = VoiceDescription {
        language_codes: Vec::new(),
        name: "ro-RO-Wavenet-A".to_owned(),
        ssml_gender: SsmlVoiceGender::Female,
        natural_sample_rate_hertz: 24000,
    };
    assert_eq!(
        voice.try_convert_to_voice_props(),
        Err(TtsError::EmptyLanguageCodes)
    );
}

#[test]
fn voice_description_accepts_names_and_aliases_mixed() {
    let body = br#"{"language_codes": ["ro-RO"], "name": "ro-RO-Wavenet-A",
                    "ssmlGender": "FEMALE", "natural_sample_rate_hertz": 24000,
                    "extra": {"nested": [1, 2.5, true]}}"#;
    let voice = VoiceDescription::from_json(&Json::parse(body).unwrap()).unwrap();
    assert_eq!(voice, romanian_voice());
}

#[test]
fn voice_description_of_another_shape_is_a_decode_error() {
    let bodies: [&[u8]; 12] = [
        br#"{"name": "v", "ssmlGender": "MALE", "naturalSampleRateHertz": 1}"#,
        br#"{"languageCodes": [], "ssmlGender": "MALE", "naturalSampleRateHertz": 1}"#,
        br#"{"languageCodes": [], "name": "v", "naturalSampleRateHertz": 1}"#,
        br#"{"languageCodes": [], "name": "v", "ssmlGender": "MALE"}"#,
        br#"{"languageCodes": "ro-RO", "name": "v", "ssmlGender": "MALE", "naturalSampleRateHertz": 1}"#,
        br#"{"languageCodes": ["a", 1], "name": "v", "ssmlGender": "MALE", "naturalSampleRateHertz": 1}"#,
        br#"{"languageCodes": [], "name": null, "ssmlGender": "MALE", "naturalSampleRateHertz": 1}"#,
        br#"{"languageCodes": [], "name": "v", "ssmlGender": "male", "naturalSampleRateHertz": 1}"#,
        br#"{"languageCodes": [], "name": "v", "ssmlGender": "MALE", "naturalSampleRateHertz": 1.5}"#,
        br#"{"languageCodes": [], "name": "v", "ssmlGender": "MALE", "naturalSampleRateHertz": "1"}"#,
        br#"{"languageCodes": [], "name": "v", "ssmlGender": "MALE", "naturalSampleRateHertz": 2147483648}"#,
        br#"{"languageCodes": [], "language_codes": [], "name": "v", "ssmlGender": "MALE", "naturalSampleRateHertz": 1}"#,
    ];
    for body in bodies {
        let doc = Json::parse(body).unwrap();
        assert_eq!(VoiceDescription::from_json(&doc), Err(TtsError::Decode));
    }
}

#[test]
fn voice_description_sample_rate_spans_32_bits() {
    let low = br#"{"languageCodes": [], "name": "", "ssmlGender": "SSML_VOICE_GENDER_UNSPECIFIED",
                   "naturalSampleRateHertz": -2147483648}"#;
    let voice = VoiceDescription::from_json(&Json::parse(low).unwrap()).unwrap();
    assert_eq!(voice.natural_sample_rate_hertz, i32::MIN);
    assert_eq!(voice.ssml_gender, SsmlVoiceGender::SsmlVoiceGenderUnspecified);
    assert_eq!(voice.language_codes.len(), 0);

    let high = br#"{"languageCodes": [], "name": "", "ssmlGender": "NEUTRAL",
                    "naturalSampleRateHertz": 2147483647}"#;
    let voice = VoiceDescription::from_json(&Json::parse(high).unwrap()).unwrap();
    assert_eq!(voice.natural_sample_rate_hertz, i32::MAX);

    let below = br#"{"languageCodes": [], "name": "", "ssmlGender": "NEUTRAL",
                     "naturalSampleRateHertz": -2147483649}"#;
    assert_eq!(
        VoiceDescription::from_json(&Json::parse(below).unwrap()),
        Err(TtsError::Decode)
    );
}

#[test]
fn catalog_keeps_the_order_and_the_count_of_the_voices() {
    let body = br#"{"voices": [
        {"languageCodes": ["en-US"], "name": "first", "ssmlGender": "MALE", "naturalSampleRateHertz": 1},
        {"languageCodes": ["en-GB", "en-AU"], "name": "second", "ssmlGender": "FEMALE", "naturalSampleRateHertz": 2},
        {"languageCodes": [], "name": "third", "ssmlGender": "NEUTRAL", "naturalSampleRateHertz": 3}
    ]}"#;
    let catalog = ListVoicesResponse::from_slice(body).unwrap();
    assert_eq!(catalog.voices.len(), 3);
    assert_eq!(catalog.voices[0].name, "first");
    assert_eq!(catalog.voices[1].name, "second");
    assert_eq!(catalog.voices[2].name, "third");
    assert_eq!(catalog.voices[1].language_codes, vec!["en-GB", "en-AU"]);
    assert_eq!(catalog.voices[2].natural_sample_rate_hertz, 3);
}

#[test]
fn catalog_without_voices() {
    let catalog = ListVoicesResponse::from_slice(br#"{"voices": []}"#).unwrap();
    assert_eq!(catalog.voices.len(), 0);
    assert_eq!(catalog.as_json(), Ok("{\n  \"voices\": []\n}".to_owned()));
}

#[test]
fn catalog_of_another_shape_is_a_decode_error() {
    let bodies: [&[u8]; 6] = [
        b"{",
        b"{}",
        br#"{"voices": null}"#,
        br#"{"voices": {}}"#,
        br#"{"voices": [{}]}"#,
        br#"{"voices": [{"languageCodes": [], "name": "v", "ssmlGender": "MALE", "naturalSampleRateHertz": 1}, 5]}"#,
    ];
    for body in bodies {
        assert_eq!(ListVoicesResponse::from_slice(body), Err(TtsError::Decode));
    }
}

#[test]
fn catalog_as_json_is_indented_and_in_field_order() {
    let catalog = ListVoicesResponse {
        voices: vec![romanian_voice()],
    };
    let expected = "{\n  \"voices\": [\n    {\n      \"language_codes\": [\n        \"ro-RO\"\n      ],\n      \"name\": \"ro-RO-Wavenet-A\",\n      \"ssml_gender\": \"FEMALE\",\n      \"natural_sample_rate_hertz\": 24000\n    }\n  ]\n}";
    assert_eq!(catalog.as_json(), Ok(expected.to_owned()));
    assert_eq!(catalog.as_json(), catalog.as_json());
}

#[test]
fn catalog_read_back_from_its_own_json() {
    let catalog = ListVoicesResponse {
        voices: vec![
            romanian_voice(),
            VoiceDescription {
                language_codes: vec!["en-US".to_owned(), "en-GB".to_owned()],
                name: "with \"quotes\" and \u{e9}".to_owned(),
                ssml_gender: SsmlVoiceGender::SsmlVoiceGenderUnspecified,
                natural_sample_rate_hertz: -1,
            },
        ],
    };
    let text = catalog.as_json().unwrap();
    assert_eq!(ListVoicesResponse::from_slice(text.as_bytes()), Ok(catalog.clone()));
    assert_eq!(ListVoicesResponse::from_json(&catalog.to_json()), Ok(catalog));
}

#[test]
fn voice_description_document() {
    assert_eq!(
        romanian_voice().to_json(),
        Json::Object(vec![
            member("language_codes", Json::Array(vec![text("ro-RO")])),
            member("name", text("ro-RO-Wavenet-A")),
            member("ssml_gender", text("FEMALE")),
            member("natural_sample_rate_hertz", Json::Int(24000)),
        ])
    );
}

#[test]
fn error_messages() {
    assert_eq!(
        TtsError::EmptyLanguageCodes.message(),
        "Failed to convert Voice description to voice properties"
    );
    let all = [
        TtsError::Transport,
        TtsError::Decode,
        TtsError::MalformedBase64,
        TtsError::EmptyLanguageCodes,
        TtsError::InvalidUrl,
    ];
    for (i, a) in all.iter().enumerate() {
        assert!(!a.message().is_empty());
        for b in all.iter().skip(i + 1) {
            assert_ne!(a.message(), b.message());
        }
    }
}

#[test]
fn a_key_written_twice_in_a_body_counts_with_its_later_value() {
    let response =
        TtsResponse::from_slice(br#"{"audioContent": "YQ==", "audioContent": "Yg=="}"#).unwrap();
    assert_eq!(response.as_base_64(), "Yg==");
    assert_eq!(response.as_byte_stream(), Ok(vec![b'b']));

    let doc = Json::parse(br#"{"audioContent": "YQ==", "x": 1, "audioContent": "Yg=="}"#).unwrap();
    assert_eq!(
        doc,
        Json::Object(vec![member("audioContent", text("Yg==")), member("x", Json::Int(1))])
    );

    let catalog = ListVoicesResponse::from_slice(
        br#"{"voices": [{"languageCodes": ["en-US"], "name": "first", "name": "second",
                          "ssmlGender": "MALE", "naturalSampleRateHertz": 1}],
             "voices": [{"languageCodes": ["ro-RO"], "name": "ro-RO-Wavenet-A",
                          "ssmlGender": "MALE", "ssmlGender": "FEMALE",
                          "naturalSampleRateHertz": 24000}]}"#,
    )
    .unwrap();
    assert_eq!(catalog.voices, vec![romanian_voice()]);
}

#[test]
fn a_field_under_its_name_and_its_alias_is_refused() {
    assert_eq!(
        TtsResponse::from_slice(br#"{"audioContent": "YQ==", "audio_content": "YQ=="}"#),
        Err(TtsError::Decode)
    );
    assert_eq!(
        ListVoicesResponse::from_slice(
            br#"{"voices": [{"languageCodes": [], "name": "v", "ssmlGender": "MALE",
                              "ssml_gender": "MALE", "naturalSampleRateHertz": 1}]}"#
        ),
        Err(TtsError::Decode)
    );
}
