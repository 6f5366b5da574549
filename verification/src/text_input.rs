//! The text to speak, and the JSON document that stands for it on the wire.

use crate::fields::{
    field, has_member, lemma_field_of_one, lemma_has_member_of_one, member, push_member,
    sole_field_at,
};
use crate::json::{lemma_object_view, members_view, string_value, Json, JsonValue};
use vstd::prelude::*;

verus! {

/// The text to speak: plain text or SSML markup, never both and never
/// neither.
#[derive(Clone, Debug, PartialEq, Eq)]
pub enum TextInput {
    Text(String),
    Ssml(String),
}

/// The mathematical value of a [`TextInput`].
pub enum TextInputView {
    Text(Seq<char>),
    Ssml(Seq<char>),
}

impl TextInputView {
    /// The plain text, where the input is plain text.
    pub open spec fn text(self) -> Option<Seq<char>> {
        match self {
            TextInputView::Text(text) => Some(text),
            TextInputView::Ssml(_) => None,
        }
    }

    /// The markup, where the input is SSML.
    pub open spec fn ssml(self) -> Option<Seq<char>> {
        match self {
            TextInputView::Text(_) => None,
            TextInputView::Ssml(ssml) => Some(ssml),
        }
    }

    /// The document written for the input: the one member `text` or the one
    /// member `ssml`.
    pub open spec fn document(self) -> JsonValue {
        match self {
            TextInputView::Text(text) => JsonValue::Object(
                member("text"@, JsonValue::String(text)),
            ),
            TextInputView::Ssml(ssml) => JsonValue::Object(
                member("ssml"@, JsonValue::String(ssml)),
            ),
        }
    }
}

impl View for TextInput {
    type V = TextInputView;

    open spec fn view(&self) -> TextInputView {
        match self {
            TextInput::Text(text) => TextInputView::Text(text@),
            TextInput::Ssml(ssml) => TextInputView::Ssml(ssml@),
        }
    }
}

impl TextInput {
    /// Plain text to speak.
    pub fn with_text(text: String) -> (input: TextInput)
        ensures
            input@ == TextInputView::Text(text@),
            input@.text() == Some(text@),
            input@.ssml() is None,
    {
        TextInput::Text(text)
    }

    /// SSML markup to speak.
    pub fn with_ssml(ssml: String) -> (input: TextInput)
        ensures
            input@ == TextInputView::Ssml(ssml@),
            input@.ssml() == Some(ssml@),
            input@.text() is None,
    {
        TextInput::Ssml(ssml)
    }

    /// The plain text, where the input is plain text.
    pub fn text(&self) -> (text: Option<&String>)
        ensures
            match text {
                Some(t) => self@.text() == Some(t@),
                None => self@.text() is None,
            },
    {
        match self {
            TextInput::Text(text) => Some(text),
            TextInput::Ssml(_) => None,
        }
    }

    /// The markup, where the input is SSML.
    pub fn ssml(&self) -> (ssml: Option<&String>)
        ensures
            match ssml {
                Some(s) => self@.ssml() == Some(s@),
                None => self@.ssml() is None,
            },
    {
        match self {
            TextInput::Text(_) => None,
            TextInput::Ssml(ssml) => Some(ssml),
        }
    }

    /// The document that stands for the input on the wire.
    pub fn to_json(&self) -> (doc: Json)
        ensures
            doc@ == self@.document(),
    {
        let mut members: Vec<(String, Json)> = Vec::new();
        match self {
            TextInput::Text(text) => {
                push_member(&mut members, "text", Json::String(text.clone()));
            },
            TextInput::Ssml(ssml) => {
                push_member(&mut members, "ssml", Json::String(ssml.clone()));
            },
        }
        proof {
            lemma_object_view(members);
            assert(members_view(members@) =~= self@.document()->Object_0);
        }
        Json::Object(members)
    }
}

/// Every text input holds exactly one of plain text and markup.
pub proof fn lemma_text_input_holds_exactly_one(input: TextInputView)
    ensures
        input.text() is Some <==> input.ssml() is None,
{
}

/// The document of a text input has one member: `text` exactly when the input
/// is plain text, `ssml` exactly when it is markup.
pub proof fn lemma_text_input_document(input: TextInputView)
    ensures
        input.document() is Object,
        input.document()->Object_0.len() == 1,
        has_member(input.document()->Object_0, "text"@) <==> input.text() is Some,
        has_member(input.document()->Object_0, "ssml"@) <==> input.ssml() is Some,
        field(input.document()->Object_0, "text"@, "text"@) == string_value(input.text()),
        field(input.document()->Object_0, "ssml"@, "ssml"@) == string_value(input.ssml()),
{
    reveal_strlit("text");
    reveal_strlit("ssml");
    assert("text"@[0] == 't' && "ssml"@[0] == 's');
    let members = input.document()->Object_0;
    let value = members[0].1;
    lemma_has_member_of_one(members[0].0, Some(value), "text"@);
    lemma_has_member_of_one(members[0].0, Some(value), "ssml"@);
    lemma_field_of_one(members[0].0, Some(value), members[0].0, members[0].0);
    assert(members =~= member(members[0].0, value));
    if input is Text {
        assert forall|i: int| !sole_field_at(members, "ssml"@, "ssml"@, i) by {}
    } else {
        assert forall|i: int| !sole_field_at(members, "text"@, "text"@, i) by {}
    }
}

} // verus!
