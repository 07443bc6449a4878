//! The provider: its credential, what it reports of itself, and the types
//! a transcription ends in.

use crate::text::optional_text;
use vstd::prelude::*;

verus! {

/// The name this provider goes by among transcription providers.
pub const PROVIDER_NAME: &'static str = "OpenAI Whisper";

/// The remote model that transcribes.
pub const MODEL: &'static str = "whisper-1";

/// What the provider reports as its current model once it holds a key.
pub const MODEL_DESCRIPTION: &'static str = "whisper-1 (OpenAI API)";

/// The confidence reported with every transcript: the binary32 bit pattern
/// of 1.0. The remote service reports none.
pub const FULL_CONFIDENCE: u32 = 0x3f80_0000;

/// A finished transcript.
#[derive(Clone, Debug, PartialEq, Eq)]
pub struct TranscriptResult {
    /// The transcribed text, without white space around it.
    pub text: String,
    /// The confidence as the binary32 bit pattern of a value in [0, 1].
    pub confidence: Option<u32>,
    /// Whether more of the same utterance is to come.
    pub is_partial: bool,
}

/// What a `TranscriptResult` holds.
pub struct TranscriptView {
    pub text: Seq<char>,
    pub confidence: Option<u32>,
    pub is_partial: bool,
}

impl View for TranscriptResult {
    type V = TranscriptView;

    open spec fn view(&self) -> TranscriptView {
        TranscriptView {
            text: self.text@,
            confidence: self.confidence,
            is_partial: self.is_partial,
        }
    }
}

/// Why a transcription failed.
#[derive(Clone, Debug, PartialEq, Eq)]
pub enum TranscriptionError {
    /// The provider holds no usable key.
    ConfigurationFailure,
    /// The audio holds fewer samples than the service accepts.
    AudioTooShort { samples: usize, minimum: usize },
    /// Anything that went wrong between building the request and reading
    /// the reply.
    EngineFailed(String),
}

/// What a `TranscriptionError` holds.
pub enum FailureView {
    ConfigurationFailure,
    AudioTooShort { samples: usize, minimum: usize },
    EngineFailed(Seq<char>),
}

impl View for TranscriptionError {
    type V = FailureView;

    open spec fn view(&self) -> FailureView {
        match *self {
            TranscriptionError::ConfigurationFailure => FailureView::ConfigurationFailure,
            TranscriptionError::AudioTooShort { samples, minimum } => FailureView::AudioTooShort {
                samples,
                minimum,
            },
            TranscriptionError::EngineFailed(message) => FailureView::EngineFailed(message@),
        }
    }
}

/// Transcription through the OpenAI Whisper API.
///
/// The provider holds the API key and nothing else. It is ready exactly
/// when it holds a key that is not empty.
pub struct OpenAIWhisperProvider {
    api_key: Option<String>,
}

impl OpenAIWhisperProvider {
    /// The key as it was last stored, empty or not.
    pub closed spec fn stored_key(&self) -> Option<Seq<char>> {
        match self.api_key {
            Some(key) => Some(key@),
            None => None,
        }
    }

    /// The key that requests are signed with: the stored key, unless it is
    /// empty.
    pub open spec fn effective_key(&self) -> Option<Seq<char>> {
        match self.stored_key() {
            Some(key) if key.len() > 0 => Some(key),
            _ => None,
        }
    }

    /// Whether the provider holds a usable key.
    pub open spec fn is_configured(&self) -> bool {
        self.effective_key() is Some
    }

    /// What the provider reports as its current model: the description of
    /// the remote model once a usable key is held, nothing before.
    pub open spec fn current_model(&self) -> Option<Seq<char>> {
        if self.is_configured() {
            Some(MODEL_DESCRIPTION@)
        } else {
            None
        }
    }

    /// A provider without a key.
    pub fn new() -> (provider: Self)
        ensures
            provider.stored_key() is None,
            !provider.is_configured(),
    {
        OpenAIWhisperProvider { api_key: None }
    }

    /// Stores `key` in place of whatever was stored before.
    pub fn set_api_key(&mut self, key: String)
        ensures
            final(self).stored_key() == Some(key@),
            final(self).is_configured() <==> key@.len() > 0,
    {
        self.api_key = Some(key);
    }

    /// A copy of the key that requests are signed with.
    pub fn usable_key(&self) -> (key: Option<String>)
        ensures
            match key {
                Some(key) => self.effective_key() == Some(key@),
                None => self.effective_key() is None,
            },
    {
        match &self.api_key {
            Some(key) => if key.as_str().is_empty() {
                None
            } else {
                Some(key.clone())
            },
            None => None,
        }
    }

    /// Whether a key is stored and is not empty.
    pub fn has_api_key(&self) -> (has: bool)
        ensures
            has == self.is_configured(),
    {
        match &self.api_key {
            Some(key) => !key.as_str().is_empty(),
            None => false,
        }
    }

    /// Whether the provider is ready to transcribe. The remote model needs
    /// no loading: the provider is ready as soon as it holds a usable key.
    pub fn is_model_loaded(&self) -> (loaded: bool)
        ensures
            loaded == self.is_configured(),
    {
        self.has_api_key()
    }

    /// The model in use, if the provider is ready.
    pub fn get_current_model(&self) -> (model: Option<String>)
        ensures
            optional_text(model) == self.current_model(),
            model is Some <==> self.is_configured(),
    {
        if self.has_api_key() {
            Some(String::from_str(MODEL_DESCRIPTION))
        } else {
            None
        }
    }

    /// The name of this provider.
    pub fn provider_name(&self) -> (name: &'static str)
        ensures
            name@ == PROVIDER_NAME@,
    {
        PROVIDER_NAME
    }

    /// Readiness follows the stored key at once: whatever was stored
    /// before, a provider that stores `key` has a key, is loaded and names
    /// its model exactly when `key` is not empty.
    pub proof fn lemma_readiness_follows_key(self, key: Seq<char>)
        requires
            self.stored_key() == Some(key),
        ensures
            self.is_configured() <==> key.len() > 0,
            self.current_model() is Some <==> self.is_configured(),
            self.effective_key() is Some <==> self.is_configured(),
            self.is_configured() ==> self.effective_key() == Some(key),
    {
    }

    /// A provider that stores no key is not ready and names no model.
    pub proof fn lemma_unready_without_key(self)
        requires
            self.stored_key() is None,
        ensures
            !self.is_configured(),
            self.current_model() is None,
    {
    }
}

} // verus!
