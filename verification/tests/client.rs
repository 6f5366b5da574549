use google_tts::client::{address_fits, MAX_ADDRESS_BYTES};
use google_tts::{
    AudioConfig, AudioEncoding, GoogleTtsClient, HttpMethod, HttpRequest, ListVoicesResponse,
    SsmlVoiceGender, TextInput, TtsError, TtsResponse, VoiceProps, WireNumber,
};

#[test]
fn simple_tts_request() {
    let client = GoogleTtsClient::new("fake-key".to_owned());
    let request = client
        .synthesize_request(
            &TextInput::with_text("hi".to_owned()),
            &VoiceProps::default_english_female(),
            &AudioConfig::default_with_encoding(AudioEncoding::Mp3),
        )
        .unwrap();

    assert_eq!(request.method, HttpMethod::Post);
    assert_eq!(
        request.url,
        "https://texttospeech.googleapis.com/v1/text:synthesize?alt=json&key=fake-key"
    );
    assert_eq!(request.content_type(), Some("application/json"));

    let fake_res = TtsResponse::from_slice(br#"{"audioContent": "testtesttest"}"#).unwrap();
    assert_eq!(fake_res.as_base_64(), "testtesttest".to_owned());
}

#[test]
fn list_voices_request() {
    let client = GoogleTtsClient::new("fake-key".to_owned());
    let request = client.list_voices_request().unwrap();
    assert_eq!(request.method, HttpMethod::Get);
    assert_eq!(
        request.url,
        "https://texttospeech.googleapis.com/v1/voices?key=fake-key"
    );
    assert_eq!(request.body, None);
    assert_eq!(request.content_type(), None);

    let fake_res = ListVoicesResponse::from_slice(
        br#"{
                    "voices": [
                    {
                        "language_codes": [
                            "ro-RO"
                        ],
                        "name": "ro-RO-Wavenet-A",
                        "ssml_gender": "FEMALE",
                        "natural_sample_rate_hertz": 24000
                    }
                    ]
                }"#,
    )
    .unwrap();

    assert_eq!(fake_res.voices.len(), 1);
    assert_eq!(fake_res.voices[0].language_codes.len(), 1);
    assert_eq!(fake_res.voices[0].language_codes[0], "ro-RO");
    assert_eq!(fake_res.voices[0].name, "ro-RO-Wavenet-A");
    assert_eq!(fake_res.voices[0].ssml_gender, SsmlVoiceGender::Female);
    assert_eq!(fake_res.voices[0].natural_sample_rate_hertz, 24000);
}

#[test]
fn list_voices_request_with_lang_code() {
    let client = GoogleTtsClient::new("fake-key".to_owned());
    let request = client
        .list_voices_with_language_code_request("en-US".to_owned())
        .unwrap();
    assert_eq!(request.method, HttpMethod::Get);
    assert_eq!(
        request.url,
        "https://texttospeech.googleapis.com/v1/voices?key=fake-key&languageCode=en-US"
    );
    assert_eq!(request.body, None);

    let fake_res = ListVoicesResponse::from_slice(
        br#"{
                    "voices": [
                    {
                        "language_codes": [
                            "en-US"
                        ],
                        "name": "ro-RO-Wavenet-A",
                        "ssml_gender": "FEMALE",
                        "natural_sample_rate_hertz": 24000
                    }
                    ]
                }"#,
    )
    .unwrap();

    assert_eq!(fake_res.voices.len(), 1);
    assert_eq!(fake_res.voices[0].language_codes.len(), 1);
    assert_eq!(fake_res.voices[0].language_codes[0], "en-US");
    assert_eq!(fake_res.voices[0].name, "ro-RO-Wavenet-A");
    assert_eq!(fake_res.voices[0].ssml_gender, SsmlVoiceGender::Female);
    assert_eq!(fake_res.voices[0].natural_sample_rate_hertz, 24000);
}

#[test]
fn synthesize_request_body_is_the_request_document() {
    let client = GoogleTtsClient::new("fake-key".to_owned());
    let request = client
        .synthesize_request(
            &TextInput::with_text("hi".to_owned()),
            &VoiceProps::default_english_female(),
            &AudioConfig::default_with_encoding(AudioEncoding::Mp3),
        )
        .unwrap();
    assert_eq!(
        request.body,
        Some(
            "{\"input\":{\"text\":\"hi\"},\
             \"voice\":{\"language_code\":\"en-US\",\"ssml_gender\":\"FEMALE\"},\
             \"audioConfig\":{\"audio_encoding\":\"MP3\"}}"
                .to_owned()
        )
    );
}

#[test]
fn synthesize_request_with_ssml_and_a_full_configuration() {
    let client = GoogleTtsClient::new("k".to_owned());
    let request = client
        .synthesize_request(
            &TextInput::with_ssml("<speak>a</speak>".to_owned()),
            &VoiceProps::default_english_female_wavenet(),
            &AudioConfig::new(
                AudioEncoding::OggOpus,
                serde_json::Number::from_f64(0.25).map(WireNumber::Finite),
                Some(1),
                None,
                Some(48000),
                None,
            ),
        )
        .unwrap();
    assert_eq!(
        request.body,
        Some(
            "{\"input\":{\"ssml\":\"<speak>a</speak>\"},\
             \"voice\":{\"language_code\":\"en-US\",\"name\":\"en-US-Wavenet-C\",\"ssml_gender\":\"FEMALE\"},\
             \"audioConfig\":{\"audio_encoding\":\"OGG_OPUS\",\"speaking_rate\":0.25,\"pitch\":1,\
             \"sample_rate_hertz\":48000}}"
                .to_owned()
        )
    );
}

#[test]
fn client_endpoints() {
    let client = GoogleTtsClient::new("fake-key".to_owned());
    assert_eq!(client.api_key(), "fake-key");
    assert_eq!(
        client.synthesize_endpoint_url(),
        "https://texttospeech.googleapis.com/v1/text:synthesize"
    );
    assert_eq!(
        client.list_voices_endpoint_url(),
        "https://texttospeech.googleapis.com/v1/voices"
    );

    let local = GoogleTtsClient::with_base_url("fake-key".to_owned(), "http://127.0.0.1:1234");
    assert_eq!(
        local.synthesize_endpoint_url(),
        "http://127.0.0.1:1234/v1/text:synthesize"
    );
    assert_eq!(
        local.list_voices_endpoint_url(),
        "http://127.0.0.1:1234/v1/voices"
    );
    assert_eq!(
        local.list_voices_request().unwrap().url,
        "http://127.0.0.1:1234/v1/voices?key=fake-key"
    );
}

#[test]
fn query_values_are_percent_encoded() {
    let client = GoogleTtsClient::new("a b&c=d".to_owned());
    let request = client
        .list_voices_with_language_code_request("fr/CA?".to_owned())
        .unwrap();
    assert_eq!(
        request.url,
        "https://texttospeech.googleapis.com/v1/voices?key=a+b%26c%3Dd&languageCode=fr%2FCA%3F"
    );
}

#[test]
fn an_address_that_is_no_url_is_an_error() {
    let client = GoogleTtsClient::with_base_url("fake-key".to_owned(), "not an address");
    assert_eq!(client.list_voices_request(), Err(TtsError::InvalidUrl));
    assert_eq!(
        client.list_voices_with_language_code_request("en-US".to_owned()),
        Err(TtsError::InvalidUrl)
    );
    assert_eq!(
        client.synthesize_request(
            &TextInput::with_text("hi".to_owned()),
            &VoiceProps::default_english_male(),
            &AudioConfig::default_with_encoding(AudioEncoding::Mp3),
        ),
        Err(TtsError::InvalidUrl)
    );
}

#[test]
fn http_request_from_its_parts() {
    assert_eq!(
        HttpRequest::new(HttpMethod::Get, Some("http://a/".to_owned()), None),
        Ok(HttpRequest {
            method: HttpMethod::Get,
            url: "http://a/".to_owned(),
            body: None,
        })
    );
    assert_eq!(
        HttpRequest::new(HttpMethod::Post, None, Some("{}".to_owned())),
        Err(TtsError::InvalidUrl)
    );
}

#[test]
fn an_address_is_made_from_a_mebibyte_at_most() {
    assert_eq!(MAX_ADDRESS_BYTES, 1024 * 1024);

    // The base holds 45 bytes and the pair `key` three more, and two for its signs.
    let base = "https://texttospeech.googleapis.com/v1/voices".to_owned();
    assert_eq!(base.len(), 45);
    let longest = "k".repeat(MAX_ADDRESS_BYTES - 50);
    let too_long = "k".repeat(MAX_ADDRESS_BYTES - 49);
    assert!(address_fits(&base, &vec![("key".to_owned(), longest.clone())]));
    assert!(!address_fits(&base, &vec![("key".to_owned(), too_long.clone())]));
    assert!(address_fits(&base, &Vec::new()));

    let request = GoogleTtsClient::new(longest.clone())
        .list_voices_request()
        .unwrap();
    assert_eq!(request.url.len(), 45 + "?key=".len() + longest.len());
    assert!(request.url.ends_with("kkk"));
    assert_eq!(
        GoogleTtsClient::new(too_long.clone()).list_voices_request(),
        Err(TtsError::InvalidUrl)
    );
    assert_eq!(
        GoogleTtsClient::new("k".to_owned()).list_voices_with_language_code_request(too_long),
        Err(TtsError::InvalidUrl)
    );
}

#[test]
fn the_bytes_of_an_address_are_counted_in_utf8() {
    let base = "http://a/".to_owned();
    // Nine bytes of base, then 1 + 2 + 2 for the pair: `é` holds two bytes.
    let pairs = vec![("k".to_owned(), "\u{e9}".to_owned())];
    assert!(address_fits(&base, &pairs));
    let filler = "x".repeat(MAX_ADDRESS_BYTES - 9 - 5 - 3);
    let full = vec![pairs[0].clone(), ("n".to_owned(), filler.clone())];
    assert!(address_fits(&base, &full));
    let over = vec![pairs[0].clone(), ("n".to_owned(), filler + "x")];
    assert!(!address_fits(&base, &over));
    let too_long_base = "http://a/".to_owned() + &"p".repeat(MAX_ADDRESS_BYTES);
    assert!(!address_fits(&too_long_base, &Vec::new()));
    assert_eq!(
        GoogleTtsClient::with_base_url("k".to_owned(), &too_long_base).list_voices_request(),
        Err(TtsError::InvalidUrl)
    );
}
