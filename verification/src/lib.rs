//! Typed requests and responses for a remote text-to-speech service.
//!
//! A caller describes what to speak ([`TextInput`]), with which voice
//! ([`VoiceProps`]) and in which form ([`AudioConfig`]). A
//! [`GoogleTtsClient`] turns that into the HTTP request to send, and
//! [`TtsResponse`] and [`ListVoicesResponse`] are read from the bodies that
//! come back. Sending is left to the caller's transport: nothing here touches
//! the network.
//!
//! The contracts speak of JSON documents ([`JsonValue`]), not of text. What a
//! request is written as, and what a response is read from, is stated
//! exactly over documents; the text of a document is `serde_json`'s, the
//! audio is decoded by `base64` and addresses are made by `reqwest`'s `Url`.
//! What is taken on trust from these is gathered in [`trusted`].

pub mod audio_config;
pub mod client;
pub mod error;
pub mod fields;
pub mod json;
pub mod request;
pub mod response;
pub mod text;
pub mod text_input;
pub mod trusted;
pub mod voice_props;
pub mod voices;

pub use audio_config::{AudioConfig, AudioEncoding, WireNumber};
pub use client::{GoogleTtsClient, HttpMethod, HttpRequest};
pub use error::TtsError;
pub use json::{Json, JsonValue};
pub use response::{ListVoicesResponse, TtsResponse, VoiceDescription};
pub use text_input::TextInput;
pub use voice_props::{SsmlVoiceGender, VoiceProps};
pub use voices::EnUsVoices;
