//! One transcription as an exchange with the remote service.
//!
//! The library decides and the caller acts: `transcribe` and `advance`
//! return the next `Action`, the caller performs it and reports what
//! happened as an `Event`, until the action is `Finish`.

use crate::json::{json_parse, member_of, read_string_member};
use crate::provider::{
    FailureView, OpenAIWhisperProvider, TranscriptResult, TranscriptView, TranscriptionError,
    FULL_CONFIDENCE, MODEL,
};
use crate::status::{status_digits, status_text, ReplyStatus};
use crate::text::{optional_text, trim, trimmed};
use crate::wav::{encodable, wav_bytes};
use vstd::prelude::*;

verus! {

/// Where transcription requests are posted.
pub const ENDPOINT: &'static str = "https://api.openai.com/v1/audio/transcriptions";

/// The sample rate the service expects, and the one every container declares.
pub const SAMPLE_RATE: u32 = 16000;

/// The fewest samples the provider sends: a tenth of a second.
pub const MIN_SAMPLES: usize = 1600;

/// What a part of the multipart form holds.
#[derive(Debug, PartialEq, Eq)]
pub enum PartBody {
    /// A text field.
    Text(String),
    /// A file with its name and media type.
    File { file_name: String, media_type: String, bytes: Vec<u8> },
}

/// What a `PartBody` holds.
pub enum PartBodyView {
    Text(Seq<char>),
    File { file_name: Seq<char>, media_type: Seq<char>, bytes: Seq<u8> },
}

impl View for PartBody {
    type V = PartBodyView;

    open spec fn view(&self) -> PartBodyView {
        match *self {
            PartBody::Text(value) => PartBodyView::Text(value@),
            PartBody::File { file_name, media_type, bytes } => PartBodyView::File {
                file_name: file_name@,
                media_type: media_type@,
                bytes: bytes@,
            },
        }
    }
}

/// A named part of the multipart form.
#[derive(Debug, PartialEq, Eq)]
pub struct FormPart {
    pub name: String,
    pub body: PartBody,
}

/// What a `FormPart` holds.
pub struct FormPartView {
    pub name: Seq<char>,
    pub body: PartBodyView,
}

impl View for FormPart {
    type V = FormPartView;

    open spec fn view(&self) -> FormPartView {
        FormPartView { name: self.name@, body: self.body@ }
    }
}

/// A request for the caller to post: the URL, the value of the
/// `Authorization` header and the parts of the multipart form, in order.
#[derive(Debug, PartialEq, Eq)]
pub struct Request {
    pub url: String,
    pub authorization: String,
    pub parts: Vec<FormPart>,
}

/// What a `Request` holds.
pub struct RequestView {
    pub url: Seq<char>,
    pub authorization: Seq<char>,
    pub parts: Seq<FormPartView>,
}

impl View for Request {
    type V = RequestView;

    open spec fn view(&self) -> RequestView {
        RequestView {
            url: self.url@,
            authorization: self.authorization@,
            parts: self.parts@.map_values(|part: FormPart| part@),
        }
    }
}

/// What the caller reports back.
#[derive(Debug, PartialEq, Eq)]
pub enum Event {
    /// The multipart form could not be built; the text says why.
    FormFailed(String),
    /// No reply came; the text says why.
    SendFailed(String),
    /// A reply came with this status.
    Status(ReplyStatus),
    /// The body of a reply as text, or `None` where it could not be read.
    ErrorBody(Option<String>),
    /// The body of a reply.
    Body(Vec<u8>),
    /// The body of a reply could not be read; the text says why.
    BodyFailed(String),
}

/// What an `Event` holds.
pub enum EventView {
    FormFailed(Seq<char>),
    SendFailed(Seq<char>),
    Status(ReplyStatus),
    ErrorBody(Option<Seq<char>>),
    Body(Seq<u8>),
    BodyFailed(Seq<char>),
}

impl View for Event {
    type V = EventView;

    open spec fn view(&self) -> EventView {
        match *self {
            Event::FormFailed(reason) => EventView::FormFailed(reason@),
            Event::SendFailed(reason) => EventView::SendFailed(reason@),
            Event::Status(status) => EventView::Status(status),
            Event::ErrorBody(Some(text)) => EventView::ErrorBody(Some(text@)),
            Event::ErrorBody(None) => EventView::ErrorBody(None),
            Event::Body(bytes) => EventView::Body(bytes@),
            Event::BodyFailed(reason) => EventView::BodyFailed(reason@),
        }
    }
}

/// What the caller is to do next.
#[derive(Debug, PartialEq, Eq)]
pub enum Action {
    /// Post the request and report `Status`, `SendFailed` or `FormFailed`.
    Send(Request),
    /// Read the body of the reply as text and report `ErrorBody`.
    ReadErrorBody,
    /// Read the body of the reply and report `Body` or `BodyFailed`.
    ReadBody,
    /// Stop: the transcription has ended with this result.
    Finish(Result<TranscriptResult, TranscriptionError>),
}

/// What an `Action` holds.
pub enum ActionView {
    Send(RequestView),
    ReadErrorBody,
    ReadBody,
    Finish(Result<TranscriptView, FailureView>),
}

impl View for Action {
    type V = ActionView;

    open spec fn view(&self) -> ActionView {
        match *self {
            Action::Send(request) => ActionView::Send(request@),
            Action::ReadErrorBody => ActionView::ReadErrorBody,
            Action::ReadBody => ActionView::ReadBody,
            Action::Finish(Ok(transcript)) => ActionView::Finish(Ok(transcript@)),
            Action::Finish(Err(failure)) => ActionView::Finish(Err(failure@)),
        }
    }
}

/// How far an exchange has come.
#[derive(Clone, Copy, Debug, PartialEq, Eq)]
pub enum Exchange {
    /// The request is out; no status has come yet.
    AwaitingStatus,
    /// A reply came with a status that is no success; its body is awaited.
    AwaitingErrorBody(ReplyStatus),
    /// A reply came with a success status; its body is awaited.
    AwaitingBody,
    /// The exchange has ended.
    Finished,
}

/// The file part that carries the audio.
pub open spec fn audio_part(wav: Seq<u8>) -> FormPartView {
    FormPartView {
        name: "file"@,
        body: PartBodyView::File { file_name: "audio.wav"@, media_type: "audio/wav"@, bytes: wav },
    }
}

/// A text field of the form.
pub open spec fn text_part(name: Seq<char>, value: Seq<char>) -> FormPartView {
    FormPartView { name, body: PartBodyView::Text(value) }
}

/// The request that carries the container `wav` under the key `key`: a
/// post to the endpoint with a bearer authorization, the container in the
/// part "file", the model in the field "model" and, after them, the
/// language hint in the field "language" if there is one.
pub open spec fn request_with(
    key: Seq<char>,
    wav: Seq<u8>,
    language: Option<Seq<char>>,
) -> RequestView {
    RequestView {
        url: ENDPOINT@,
        authorization: "Bearer "@ + key,
        parts: match language {
            Some(hint) => seq![
                audio_part(wav),
                text_part("model"@, MODEL@),
                text_part("language"@, hint),
            ],
            None => seq![audio_part(wav), text_part("model"@, MODEL@)],
        },
    }
}

/// The request that transcribes `audio` with the key `key`: the audio goes
/// out as a 16 kHz container.
pub open spec fn request_for(
    key: Seq<char>,
    audio: Seq<u32>,
    language: Option<Seq<char>>,
) -> RequestView {
    request_with(key, wav_bytes(audio, SAMPLE_RATE), language)
}

/// How a transcription starts: without a key it fails at once, then short
/// audio is turned away, and otherwise the request goes out.
pub open spec fn first_step(
    key: Option<Seq<char>>,
    audio: Seq<u32>,
    language: Option<Seq<char>>,
) -> (Exchange, ActionView) {
    match key {
        None => (Exchange::Finished, ActionView::Finish(Err(FailureView::ConfigurationFailure))),
        Some(key) => if audio.len() < MIN_SAMPLES {
            (
                Exchange::Finished,
                ActionView::Finish(
                    Err(
                        FailureView::AudioTooShort {
                            samples: audio.len() as usize,
                            minimum: MIN_SAMPLES,
                        },
                    ),
                ),
            )
        } else {
            (Exchange::AwaitingStatus, ActionView::Send(request_for(key, audio, language)))
        },
    }
}

/// The transcript made of the text member of a reply: the text without
/// the white space around it, or the empty text where there is none.
pub open spec fn transcript_of(text: Option<Seq<char>>) -> TranscriptView {
    TranscriptView {
        text: match text {
            Some(text) => trimmed(text),
            None => Seq::empty(),
        },
        confidence: Some(FULL_CONFIDENCE),
        is_partial: false,
    }
}

/// An engine failure with the message `prefix` followed by `detail`.
pub open spec fn engine_failure(prefix: Seq<char>, detail: Seq<char>) -> ActionView {
    ActionView::Finish(Err(FailureView::EngineFailed(prefix + detail)))
}

/// The failure that a reply without a success status ends in: its message
/// holds the status written out and the body of the reply.
pub open spec fn api_failure(status: ReplyStatus, body: Option<Seq<char>>) -> ActionView {
    engine_failure(
        "API error "@,
        status_text(status.code()) + ": "@ + match body {
            Some(text) => text,
            None => Seq::empty(),
        },
    )
}

/// What the parsed body of a successful reply ends in.
pub open spec fn body_outcome(
    parsed: Result<Map<Seq<char>, Seq<char>>, Seq<char>>,
) -> ActionView {
    match parsed {
        Ok(members) => ActionView::Finish(Ok(transcript_of(member_of(members, "text"@)))),
        Err(detail) => engine_failure("Failed to parse response: "@, detail),
    }
}

/// The next state and action for an event. An event that the state does
/// not wait for ends the exchange in a failure.
pub open spec fn next_step(state: Exchange, event: EventView) -> (Exchange, ActionView) {
    match (state, event) {
        (Exchange::AwaitingStatus, EventView::FormFailed(reason)) => (
            Exchange::Finished,
            engine_failure("Failed to create form: "@, reason),
        ),
        (Exchange::AwaitingStatus, EventView::SendFailed(reason)) => (
            Exchange::Finished,
            engine_failure("Request failed: "@, reason),
        ),
        (Exchange::AwaitingStatus, EventView::Status(status)) => if status.is_success() {
            (Exchange::AwaitingBody, ActionView::ReadBody)
        } else {
            (Exchange::AwaitingErrorBody(status), ActionView::ReadErrorBody)
        },
        (Exchange::AwaitingErrorBody(status), EventView::ErrorBody(body)) => (
            Exchange::Finished,
            api_failure(status, body),
        ),
        (Exchange::AwaitingBody, EventView::Body(bytes)) => (
            Exchange::Finished,
            body_outcome(json_parse(bytes)),
        ),
        (Exchange::AwaitingBody, EventView::BodyFailed(reason)) => (
            Exchange::Finished,
            engine_failure("Failed to parse response: "@, reason),
        ),
        _ => (
            Exchange::Finished,
            ActionView::Finish(Err(FailureView::EngineFailed("Unexpected event"@))),
        ),
    }
}

/// Only the first step of a transcription sends a request: no event makes
/// the exchange post again.
pub proof fn lemma_no_second_request(state: Exchange, event: EventView)
    ensures
        !(next_step(state, event).1 is Send),
{
}

/// The exchange is finished exactly when the action is to stop, and a
/// finished exchange answers every further event with a failure.
pub proof fn lemma_finish_is_final(state: Exchange, event: EventView)
    ensures
        next_step(state, event).0 == Exchange::Finished <==> next_step(state, event).1 is Finish,
        state == Exchange::Finished ==> next_step(state, event) == (
            Exchange::Finished,
            ActionView::Finish(Err(FailureView::EngineFailed("Unexpected event"@))),
        ),
{
}

/// An exchange that starts by sending ends after two events at most.
pub proof fn lemma_exchange_ends(first: EventView, second: EventView)
    ensures
        ({
            let after_first = next_step(Exchange::AwaitingStatus, first).0;
            after_first == Exchange::Finished || next_step(after_first, second).0
                == Exchange::Finished
        }),
{
}

/// A transcript never is partial, and its confidence is one.
pub proof fn lemma_transcript_is_final(text: Option<Seq<char>>)
    ensures
        !transcript_of(text).is_partial,
        transcript_of(text).confidence == Some(0x3f80_0000u32),
{
}

/// The failure of a reply without a success status names the status and
/// keeps the body: its message is "API error ", the three digits of the
/// code and the reason, a colon, and at its end the body as it came.
pub proof fn lemma_api_failure_message(status: ReplyStatus, body: Seq<char>)
    ensures
        api_failure(status, Some(body)) matches ActionView::Finish(
            Err(FailureView::EngineFailed(message)),
        ) && {
            &&& message.len() >= 14 + body.len()
            &&& message.subrange(0, 10) == "API error "@
            &&& message.subrange(10, 14) == status_digits(status.code())
            &&& message.subrange(message.len() - body.len(), message.len() as int) == body
        },
{
    reveal_strlit("API error ");
    let head = "API error "@;
    let tail = status_text(status.code()) + ": "@ + body;
    let message = head + tail;
    assert(message.subrange(0, 10) =~= head);
    assert(message.subrange(10, 14) =~= status_digits(status.code()));
    assert(message.subrange(message.len() - body.len(), message.len() as int) =~= body);
}

/// `prefix` followed by `detail`.
fn joined(prefix: &str, detail: &str) -> (text: String)
    ensures
        text@ == prefix@ + detail@,
{
    String::from_str(prefix).concat(detail)
}

/// The action that ends an exchange in an engine failure.
fn fail(prefix: &str, detail: &str) -> (action: Action)
    ensures
        action@ == engine_failure(prefix@, detail@),
{
    Action::Finish(Err(TranscriptionError::EngineFailed(joined(prefix, detail))))
}

/// The transcript for the text member of a reply, if it has one.
pub fn transcript_from_text(text: Option<String>) -> (transcript: TranscriptResult)
    ensures
        transcript@ == transcript_of(optional_text(text)),
{
    let text: String = match text {
        Some(text) => trim(text.as_str()),
        None => String::new(),
    };
    TranscriptResult { text, confidence: Some(FULL_CONFIDENCE), is_partial: false }
}

/// What a parsed body ends in, given what the parser made of it: the text
/// member it found (or none), or its message.
pub fn outcome_from_parsed(parsed: Result<Option<String>, String>) -> (action: Action)
    ensures
        action@ == match parsed {
            Ok(text) => ActionView::Finish(Ok(transcript_of(optional_text(text)))),
            Err(detail) => engine_failure("Failed to parse response: "@, detail@),
        },
{
    match parsed {
        Ok(text) => Action::Finish(Ok(transcript_from_text(text))),
        Err(detail) => fail("Failed to parse response: ", detail.as_str()),
    }
}

/// Reads the body of a successful reply: the transcript made of its text
/// member, or a failure with the parser's message.
pub fn interpret_body(body: &[u8]) -> (action: Action)
    ensures
        action@ == body_outcome(json_parse(body@)),
{
    outcome_from_parsed(read_string_member(body, "text"))
}

/// The failure for a reply whose status, written out, is `status` and whose
/// body is `body`.
pub fn failure_from_status_text(status: &str, body: Option<String>) -> (action: Action)
    ensures
        action@ == engine_failure(
            "API error "@,
            status@ + ": "@ + match body {
                Some(text) => text@,
                None => Seq::empty(),
            },
        ),
{
    let mut detail: String = joined(status, ": ");
    match body {
        Some(text) => detail.append(text.as_str()),
        None => {
            assert(detail@ + Seq::<char>::empty() =~= detail@);
        },
    }
    fail("API error ", detail.as_str())
}

/// The failure for a reply whose status is no success.
pub fn failure_from_reply(status: ReplyStatus, body: Option<String>) -> (action: Action)
    ensures
        action@ == api_failure(status, optional_text(body)),
{
    failure_from_status_text(status.describe().as_str(), body)
}

/// Composes the request that carries the container `wav`.
pub fn compose_request(key: &str, wav: Vec<u8>, language: Option<String>) -> (request: Request)
    ensures
        request@ == request_with(key@, wav@, optional_text(language)),
{
    let ghost hint_view: Option<Seq<char>> = optional_text(language);
    let mut parts: Vec<FormPart> = Vec::new();
    parts.push(
        FormPart {
            name: String::from_str("file"),
            body: PartBody::File {
                file_name: String::from_str("audio.wav"),
                media_type: String::from_str("audio/wav"),
                bytes: wav,
            },
        },
    );
    parts.push(
        FormPart { name: String::from_str("model"), body: PartBody::Text(String::from_str(MODEL)) },
    );
    match language {
        Some(hint) => {
            parts.push(FormPart { name: String::from_str("language"), body: PartBody::Text(hint) });
        },
        None => {},
    }
    let request = Request {
        url: String::from_str(ENDPOINT),
        authorization: joined("Bearer ", key),
        parts,
    };
    assert(request@.parts =~= request_with(key@, wav@, hint_view).parts);
    request
}

impl Exchange {
    /// Takes the exchange one step further: the state after `event` and
    /// what the caller is to do next.
    pub fn advance(self, event: Event) -> (next: (Exchange, Action))
        ensures
            next.0 == next_step(self, event@).0,
            next.1@ == next_step(self, event@).1,
    {
        match (self, event) {
            (Exchange::AwaitingStatus, Event::FormFailed(reason)) => (
                Exchange::Finished,
                fail("Failed to create form: ", reason.as_str()),
            ),
            (Exchange::AwaitingStatus, Event::SendFailed(reason)) => (
                Exchange::Finished,
                fail("Request failed: ", reason.as_str()),
            ),
            (Exchange::AwaitingStatus, Event::Status(status)) => if status.succeeded() {
                (Exchange::AwaitingBody, Action::ReadBody)
            } else {
                (Exchange::AwaitingErrorBody(status), Action::ReadErrorBody)
            },
            (Exchange::AwaitingErrorBody(status), Event::ErrorBody(body)) => (
                Exchange::Finished,
                failure_from_reply(status, body),
            ),
            (Exchange::AwaitingBody, Event::Body(bytes)) => (
                Exchange::Finished,
                interpret_body(bytes.as_slice()),
            ),
            (Exchange::AwaitingBody, Event::BodyFailed(reason)) => (
                Exchange::Finished,
                fail("Failed to parse response: ", reason.as_str()),
            ),
            _ => (
                Exchange::Finished,
                Action::Finish(
                    Err(TranscriptionError::EngineFailed(String::from_str("Unexpected event"))),
                ),
            ),
        }
    }
}

impl OpenAIWhisperProvider {
    /// Starts a transcription of `audio`, whose samples are binary32 bit
    /// patterns of values at 16 kHz, with an optional language hint.
    ///
    /// The audio must fit a WAV container.
    pub fn transcribe(&self, audio: Vec<u32>, language: Option<String>) -> (next: (
        Exchange,
        Action,
    ))
        requires
            encodable(audio@.len(), SAMPLE_RATE),
        ensures
            next.0 == first_step(
                self.effective_key(),
                audio@,
                optional_text(language),
            ).0,
            next.1@ == first_step(
                self.effective_key(),
                audio@,
                optional_text(language),
            ).1,
            !self.is_configured() ==> next.1@ == ActionView::Finish(
                Err(FailureView::ConfigurationFailure),
            ),
            self.is_configured() && audio@.len() < MIN_SAMPLES ==> next.1@ == ActionView::Finish(
                Err(FailureView::AudioTooShort { samples: audio@.len() as usize, minimum: 1600 }),
            ),
            !self.is_configured() || audio@.len() < MIN_SAMPLES ==> next.0 == Exchange::Finished,
    {
        let key: String = match self.usable_key() {
            Some(key) => key,
            None => {
                return (
                    Exchange::Finished,
                    Action::Finish(Err(TranscriptionError::ConfigurationFailure)),
                );
            },
        };
        if audio.len() < MIN_SAMPLES {
            let too_short = TranscriptionError::AudioTooShort {
                samples: audio.len(),
                minimum: MIN_SAMPLES,
            };
            return (Exchange::Finished, Action::Finish(Err(too_short)));
        }
        let wav: Vec<u8> = Self::samples_to_wav(audio.as_slice(), SAMPLE_RATE);
        let request: Request = compose_request(key.as_str(), wav, language);
        (Exchange::AwaitingStatus, Action::Send(request))
    }
}

} // verus!
