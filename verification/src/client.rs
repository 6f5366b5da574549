//! The client's side of the protocol, without the transport: the HTTP request
//! to send for each operation, given the API key and the service's address.
//!
//! Every request carries the API key as the query parameter `key`. Each
//! operation is one request, made afresh from the client's values; nothing is
//! kept between calls. An address is made only from a base and a query of no
//! more than `MAX_ADDRESS_BYTES` bytes; longer ones are refused as invalid.

use crate::error::TtsError;
use crate::audio_config::AudioConfig;
use crate::request::{request_document, synthesis_request_document};
use crate::text_input::TextInput;
use crate::trusted::{compact_text, pairs_view, parse_with_params, url_with_query};
use crate::voice_props::VoiceProps;
use vstd::prelude::*;
use vstd::string::StringExecFns;
use vstd::utf8::encode_utf8;

verus! {

/// The method of an HTTP request.
#[derive(Clone, Copy, Debug, PartialEq, Eq, Structural)]
pub enum HttpMethod {
    Get,
    Post,
}

/// An HTTP request for the transport to send: the method, the address with
/// its query, and the JSON text of the body where there is one.
#[derive(Clone, Debug, PartialEq, Eq)]
pub struct HttpRequest {
    pub method: HttpMethod,
    pub url: String,
    pub body: Option<String>,
}

/// The mathematical value of an [`HttpRequest`].
pub struct HttpRequestView {
    pub method: HttpMethod,
    pub url: Seq<char>,
    pub body: Option<Seq<char>>,
}

impl View for HttpRequest {
    type V = HttpRequestView;

    open spec fn view(&self) -> HttpRequestView {
        HttpRequestView {
            method: self.method,
            url: self.url@,
            body: match self.body {
                Some(text) => Some(text@),
                None => None,
            },
        }
    }
}

impl HttpRequest {
    /// The request to an address that could be made, and the failure where
    /// none could.
    pub fn new(method: HttpMethod, url: Option<String>, body: Option<String>) -> (request: Result<
        HttpRequest,
        TtsError,
    >)
        ensures
            match url {
                Some(address) => request is Ok && request->Ok_0 == (HttpRequest {
                    method,
                    url: address,
                    body,
                }),
                None => request is Err && request->Err_0 == TtsError::InvalidUrl,
            },
    {
        match url {
            Some(address) => Ok(HttpRequest { method, url: address, body }),
            None => Err(TtsError::InvalidUrl),
        }
    }

    /// The content type to announce: JSON where the request has a body.
    pub fn content_type(&self) -> (content_type: Option<&'static str>)
        ensures
            match content_type {
                Some(name) => self.body is Some && name@ == "application/json"@,
                None => self.body is None,
            },
    {
        match &self.body {
            Some(_) => Some("application/json"),
            None => None,
        }
    }
}

/// The API key and the addresses of the service's two endpoints.
#[derive(Clone)]
pub struct GoogleTtsClient {
    api_key: String,
    synthesize_endpoint_url: String,
    list_voices_endpoint_url: String,
}

/// The mathematical value of a [`GoogleTtsClient`].
pub struct GoogleTtsClientView {
    pub api_key: Seq<char>,
    pub synthesize_endpoint_url: Seq<char>,
    pub list_voices_endpoint_url: Seq<char>,
}

impl View for GoogleTtsClient {
    type V = GoogleTtsClientView;

    closed spec fn view(&self) -> GoogleTtsClientView {
        GoogleTtsClientView {
            api_key: self.api_key@,
            synthesize_endpoint_url: self.synthesize_endpoint_url@,
            list_voices_endpoint_url: self.list_voices_endpoint_url@,
        }
    }
}

impl GoogleTtsClientView {
    /// The query of a synthesis request: `alt=json` and the key.
    pub open spec fn synthesize_query(self) -> Seq<(Seq<char>, Seq<char>)> {
        seq![("alt"@, "json"@), ("key"@, self.api_key)]
    }

    /// The query of a request for all voices: the key.
    pub open spec fn list_voices_query(self) -> Seq<(Seq<char>, Seq<char>)> {
        seq![("key"@, self.api_key)]
    }

    /// The query of a request for the voices of one language: the key and the
    /// language.
    pub open spec fn list_voices_of_language_query(self, language_code: Seq<char>) -> Seq<
        (Seq<char>, Seq<char>),
    > {
        seq![("key"@, self.api_key), ("languageCode"@, language_code)]
    }
}

/// The most bytes that an address may be made from: those of the base and,
/// for each pair of the query, those of its name and its value and two more.
///
/// `Url` counts the places in an address with numbers of 32 bits, and an
/// address that outgrows them is not always refused with an error. It writes
/// at most a few dozen bytes for each byte that it reads (three for a byte
/// that it percent-encodes, more for a host name that it writes in
/// Punycode), so an address made from no more than a mebibyte stays far
/// below that limit.
pub const MAX_ADDRESS_BYTES: usize = 1048576;

/// The number of bytes of a text in UTF-8.
pub open spec fn utf8_len(text: Seq<char>) -> nat {
    encode_utf8(text).len()
}

/// The number of bytes that an address is made from: those of the base and,
/// for each pair, those of its name and its value and two more, for the
/// signs that join them.
pub open spec fn address_bytes(base: Seq<char>, pairs: Seq<(Seq<char>, Seq<char>)>) -> nat
    decreases pairs.len(),
{
    if pairs.len() == 0 {
        utf8_len(base)
    } else {
        address_bytes(base, pairs.drop_last()) + utf8_len(pairs.last().0) + utf8_len(
            pairs.last().1,
        ) + 2
    }
}

/// An address is made from no fewer bytes than one with only the first of
/// its pairs.
pub proof fn lemma_address_bytes_grow(
    base: Seq<char>,
    pairs: Seq<(Seq<char>, Seq<char>)>,
    count: int,
)
    requires
        0 <= count <= pairs.len(),
    ensures
        address_bytes(base, pairs.take(count)) <= address_bytes(base, pairs),
    decreases pairs.len(),
{
    if count == pairs.len() {
        assert(pairs.take(count) =~= pairs);
    } else {
        assert(pairs.drop_last().take(count) =~= pairs.take(count));
        lemma_address_bytes_grow(base, pairs.drop_last(), count);
    }
}

/// The number of bytes of a string.
fn byte_len(text: &String) -> (count: usize)
    ensures
        count == utf8_len(text@),
{
    text.as_str().as_bytes().len()
}

/// Whether an address may be made from a base and pairs: whether they hold
/// no more than `MAX_ADDRESS_BYTES` bytes.
pub fn address_fits(base: &String, pairs: &Vec<(String, String)>) -> (fits: bool)
    ensures
        fits == (address_bytes(base@, pairs_view(pairs@)) <= MAX_ADDRESS_BYTES),
{
    let ghost view = pairs_view(pairs@);
    let mut total: usize = byte_len(base);
    assert(view.take(0) =~= Seq::empty());
    let mut i: usize = 0;
    while i < pairs.len()
        invariant
            0 <= i <= pairs.len(),
            view == pairs_view(pairs@),
            total == address_bytes(base@, view.take(i as int)),
        decreases pairs.len() - i,
    {
        proof {
            lemma_address_bytes_grow(base@, view, i as int);
            lemma_address_bytes_grow(base@, view, i + 1);
            assert(view.take(i + 1).drop_last() =~= view.take(i as int));
            assert(view.take(i + 1).last() == view[i as int]);
        }
        let name_len = byte_len(&pairs[i].0);
        let value_len = byte_len(&pairs[i].1);
        if total > MAX_ADDRESS_BYTES || name_len > MAX_ADDRESS_BYTES || value_len
            > MAX_ADDRESS_BYTES {
            return false;
        }
        total = total + name_len + value_len + 2;
        i += 1;
    }
    assert(view.take(i as int) =~= view);
    total <= MAX_ADDRESS_BYTES
}

/// The request with the given method and body to the address made of `base`
/// and `pairs`, and the failure where they hold too many bytes for an
/// address and where `base` is no absolute URL.
pub open spec fn request_to(
    method: HttpMethod,
    base: Seq<char>,
    pairs: Seq<(Seq<char>, Seq<char>)>,
    body: Option<Seq<char>>,
) -> Result<HttpRequestView, TtsError> {
    if address_bytes(base, pairs) <= MAX_ADDRESS_BYTES {
        match url_with_query(base, pairs) {
            Some(url) => Ok(HttpRequestView { method, url, body }),
            None => Err(TtsError::InvalidUrl),
        }
    } else {
        Err(TtsError::InvalidUrl)
    }
}

/// The address made of a base and pairs, where they hold few enough bytes
/// for one and the base is an absolute URL.
fn address(base: &String, pairs: &Vec<(String, String)>) -> (url: Option<String>)
    ensures
        match url {
            Some(address) => address_bytes(base@, pairs_view(pairs@)) <= MAX_ADDRESS_BYTES
                && url_with_query(base@, pairs_view(pairs@)) == Some(address@),
            None => address_bytes(base@, pairs_view(pairs@)) > MAX_ADDRESS_BYTES
                || url_with_query(base@, pairs_view(pairs@)) is None,
        },
{
    if address_fits(base, pairs) {
        parse_with_params(base, pairs)
    } else {
        None
    }
}

/// The value of what a request builder returned.
pub open spec fn built(request: Result<HttpRequest, TtsError>) -> Result<HttpRequestView, TtsError> {
    match request {
        Ok(r) => Ok(r@),
        Err(e) => Err(e),
    }
}

impl GoogleTtsClient {
    /// A client of the service at its public address.
    pub fn new(api_key: String) -> (client: GoogleTtsClient)
        ensures
            client@ == (GoogleTtsClientView {
                api_key: api_key@,
                synthesize_endpoint_url: "https://texttospeech.googleapis.com"@
                    + "/v1/text:synthesize"@,
                list_voices_endpoint_url: "https://texttospeech.googleapis.com"@ + "/v1/voices"@,
            }),
    {
        GoogleTtsClient::with_base_url(api_key, "https://texttospeech.googleapis.com")
    }

    /// A client of a service at another address, such as a stand-in.
    pub fn with_base_url(api_key: String, base_url: &str) -> (client: GoogleTtsClient)
        ensures
            client@ == (GoogleTtsClientView {
                api_key: api_key@,
                synthesize_endpoint_url: base_url@ + "/v1/text:synthesize"@,
                list_voices_endpoint_url: base_url@ + "/v1/voices"@,
            }),
    {
        let synthesize_endpoint_url = base_url.to_owned().concat("/v1/text:synthesize");
        let list_voices_endpoint_url = base_url.to_owned().concat("/v1/voices");
        GoogleTtsClient { api_key, synthesize_endpoint_url, list_voices_endpoint_url }
    }

    /// The API key.
    pub fn api_key(&self) -> (key: &String)
        ensures
            key@ == self@.api_key,
    {
        &self.api_key
    }

    /// The address of the synthesis endpoint.
    pub fn synthesize_endpoint_url(&self) -> (url: &String)
        ensures
            url@ == self@.synthesize_endpoint_url,
    {
        &self.synthesize_endpoint_url
    }

    /// The address of the voices endpoint.
    pub fn list_voices_endpoint_url(&self) -> (url: &String)
        ensures
            url@ == self@.list_voices_endpoint_url,
    {
        &self.list_voices_endpoint_url
    }

    /// The request that asks the service to speak `input` with `voice`, in
    /// the form `audio`: a POST to the synthesis endpoint, with the request's
    /// document as the body.
    pub fn synthesize_request(&self, input: &TextInput, voice: &VoiceProps, audio: &AudioConfig) -> (request:
        Result<HttpRequest, TtsError>)
        ensures
            built(request) == request_to(
                HttpMethod::Post,
                self@.synthesize_endpoint_url,
                self@.synthesize_query(),
                Some(compact_text(request_document(input@, voice@, audio@))),
            ),
    {
        let body = synthesis_request_document(input, voice, audio).to_text();
        let mut pairs: Vec<(String, String)> = Vec::new();
        pairs.push(("alt".to_owned(), "json".to_owned()));
        pairs.push(("key".to_owned(), self.api_key.clone()));
        assert(pairs_view(pairs@) =~= self@.synthesize_query());
        let url = address(&self.synthesize_endpoint_url, &pairs);
        HttpRequest::new(HttpMethod::Post, url, Some(body))
    }

    /// The request that asks the service for all its voices: a GET to the
    /// voices endpoint.
    pub fn list_voices_request(&self) -> (request: Result<HttpRequest, TtsError>)
        ensures
            built(request) == request_to(
                HttpMethod::Get,
                self@.list_voices_endpoint_url,
                self@.list_voices_query(),
                None,
            ),
    {
        let mut pairs: Vec<(String, String)> = Vec::new();
        pairs.push(("key".to_owned(), self.api_key.clone()));
        assert(pairs_view(pairs@) =~= self@.list_voices_query());
        let url = address(&self.list_voices_endpoint_url, &pairs);
        HttpRequest::new(HttpMethod::Get, url, None)
    }

    /// The request that asks the service for its voices of one language: a
    /// GET to the voices endpoint, with the language as the query parameter
    /// `languageCode`.
    pub fn list_voices_with_language_code_request(&self, language_code: String) -> (request: Result<
        HttpRequest,
        TtsError,
    >)
        ensures
            built(request) == request_to(
                HttpMethod::Get,
                self@.list_voices_endpoint_url,
                self@.list_voices_of_language_query(language_code@),
                None,
            ),
    {
        let mut pairs: Vec<(String, String)> = Vec::new();
        pairs.push(("key".to_owned(), self.api_key.clone()));
        pairs.push(("languageCode".to_owned(), language_code));
        assert(pairs_view(pairs@) =~= self@.list_voices_of_language_query(language_code@));
        let url = address(&self.list_voices_endpoint_url, &pairs);
        HttpRequest::new(HttpMethod::Get, url, None)
    }
}

} // verus!
