use google_tts::fields::{find_field, push_member, push_optional_member};
use google_tts::json::strings_document;
use google_tts::text::same_text;
use google_tts::{Json, TtsError};

fn text(value: &str) -> Json {
    Json::String(value.to_owned())
}

#[test]
fn parse_reads_every_kind_of_value() {
    let doc = Json::parse(br#"{"a": null, "b": [true, false], "c": "s", "d": -5, "e": {}}"#);
    assert_eq!(
        doc,
        Ok(Json::Object(vec![
            ("a".to_owned(), Json::Null),
            (
                "b".to_owned(),
                Json::Array(vec![Json::Bool(true), Json::Bool(false)])
            ),
            ("c".to_owned(), text("s")),
            ("d".to_owned(), Json::Int(-5)),
            ("e".to_owned(), Json::Object(Vec::new())),
        ]))
    );
}

#[test]
fn parse_keeps_the_order_of_the_members() {
    let doc = Json::parse(br#"{"z": 1, "a": 2, "m": 3}"#).unwrap();
    assert_eq!(
        doc,
        Json::Object(vec![
            ("z".to_owned(), Json::Int(1)),
            ("a".to_owned(), Json::Int(2)),
            ("m".to_owned(), Json::Int(3)),
        ])
    );
    assert_eq!(doc.to_text(), "{\"z\":1,\"a\":2,\"m\":3}");
}

#[test]
fn parse_tells_integers_from_other_numbers() {
    assert_eq!(Json::parse(b"5"), Ok(Json::Int(5)));
    assert_eq!(
        Json::parse(b"-9223372036854775808"),
        Ok(Json::Int(i64::MIN))
    );
    assert_eq!(Json::parse(b"9223372036854775807"), Ok(Json::Int(i64::MAX)));
    assert_eq!(
        Json::parse(b"1.5"),
        Ok(Json::Number(serde_json::Number::from_f64(1.5).unwrap()))
    );
    assert_eq!(
        Json::parse(b"18446744073709551615"),
        Ok(Json::Number(serde_json::Number::from(u64::MAX)))
    );
    assert_eq!(Json::parse(b"18446744073709551615").unwrap().to_text(), "18446744073709551615");
    assert_eq!(Json::parse(b"2.50").unwrap().to_text(), "2.5");
}

#[test]
fn parse_refuses_what_is_not_json() {
    let texts: [&[u8]; 7] = [b"", b"{", b"[1,]", b"nul", b"{\"a\" 1}", b"1 2", b"\xff"];
    for text in texts {
        assert_eq!(Json::parse(text), Err(TtsError::Decode));
    }
}

#[test]
fn to_text_writes_on_one_line() {
    let doc = Json::Object(vec![
        ("a".to_owned(), Json::Array(vec![Json::Int(1), Json::Null])),
        ("b".to_owned(), text("x\ny")),
        ("c".to_owned(), Json::Bool(true)),
    ]);
    assert_eq!(doc.to_text(), "{\"a\":[1,null],\"b\":\"x\\ny\",\"c\":true}");
}

#[test]
fn to_pretty_text_indents_by_two_spaces() {
    let doc = Json::Object(vec![
        ("a".to_owned(), Json::Array(vec![Json::Int(1), Json::Null])),
        ("b".to_owned(), Json::Object(Vec::new())),
    ]);
    assert_eq!(
        doc.to_pretty_text(),
        "{\n  \"a\": [\n    1,\n    null\n  ],\n  \"b\": {}\n}"
    );
}

#[test]
fn text_read_back_is_the_document() {
    let doc = Json::Object(vec![
        ("k".to_owned(), Json::Array(vec![text("v"), Json::Int(7)])),
        ("n".to_owned(), Json::Null),
    ]);
    assert_eq!(Json::parse(doc.to_text().as_bytes()), Ok(Json::Object(vec![
        ("k".to_owned(), Json::Array(vec![text("v"), Json::Int(7)])),
        ("n".to_owned(), Json::Null),
    ])));
    assert_eq!(Json::parse(doc.to_pretty_text().as_bytes()).unwrap(), doc);
}

#[test]
fn find_field_by_name_and_by_alias() {
    let members = vec![
        ("other".to_owned(), Json::Null),
        ("audioContent".to_owned(), text("x")),
    ];
    assert_eq!(
        find_field(&members, "audio_content", "audioContent"),
        Some(&text("x"))
    );
    assert_eq!(find_field(&members, "other", "other"), Some(&Json::Null));
    assert_eq!(find_field(&members, "missing", "absent"), None);
    assert_eq!(find_field(&Vec::new(), "a", "b"), None);
}

#[test]
fn find_field_refuses_a_field_written_twice() {
    let both = vec![
        ("audio_content".to_owned(), text("x")),
        ("audioContent".to_owned(), text("y")),
    ];
    assert_eq!(find_field(&both, "audio_content", "audioContent"), None);
    assert_eq!(
        find_field(&both, "audio_content", "audio_content"),
        Some(&text("x"))
    );

    let same = vec![
        ("a".to_owned(), Json::Int(1)),
        ("b".to_owned(), Json::Int(2)),
        ("a".to_owned(), Json::Int(3)),
    ];
    assert_eq!(find_field(&same, "a", "a"), None);
    assert_eq!(find_field(&same, "b", "a2"), Some(&Json::Int(2)));
}

#[test]
fn members_are_pushed_in_order() {
    let mut members = Vec::new();
    push_member(&mut members, "a", Json::Int(1));
    push_optional_member(&mut members, "b", None);
    push_optional_member(&mut members, "c", Some(Json::Bool(false)));
    assert_eq!(
        members,
        vec![
            ("a".to_owned(), Json::Int(1)),
            ("c".to_owned(), Json::Bool(false)),
        ]
    );
}

#[test]
fn strings_become_an_array_of_strings() {
    assert_eq!(
        strings_document(&vec!["a".to_owned(), "".to_owned()]),
        Json::Array(vec![text("a"), text("")])
    );
    assert_eq!(strings_document(&Vec::new()), Json::Array(Vec::new()));
}

#[test]
fn texts_are_compared_by_their_characters() {
    assert!(same_text("MALE", "MALE"));
    assert!(!same_text("MALE", "FEMALE"));
    assert!(!same_text("MALE", "male"));
    assert!(same_text("", ""));
}
