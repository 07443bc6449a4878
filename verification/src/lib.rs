//! Speech-to-text through the OpenAI Whisper API, without the I/O.
//!
//! The provider keeps the API key, encodes samples as a WAV container,
//! composes the request and reads the reply. The caller posts the request
//! and reports back what came: see `exchange`.
//!
//! Sample values and confidences are single-precision numbers; the library
//! carries them as their IEEE-754 bit patterns (`f32::to_bits`).

pub mod exchange;
pub mod json;
pub mod provider;
pub mod sample;
pub mod status;
pub mod text;
pub mod wav;

pub use exchange::{Action, Event, Exchange, FormPart, PartBody, Request};
pub use provider::{OpenAIWhisperProvider, TranscriptResult, TranscriptionError};
pub use status::ReplyStatus;
