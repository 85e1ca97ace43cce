//! Speech-input client library: the protocol, session and audio logic of a
//! desktop voice-input tool that streams Opus audio to a speech-recognition
//! service over a WebSocket and reports transcription results.

pub mod text;
pub mod json;
pub mod transcription;
pub mod protocol;
pub mod session;
pub mod session_laws;
pub mod credentials;
pub mod capture;
pub mod pcm;
pub mod jobs;
pub mod flags;
pub mod client;
