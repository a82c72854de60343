//! Audio transcription and speech synthesis types.
use vstd::prelude::*;

use crate::error::opt_view;
use crate::types::calls::{last_set, lemma_map_drop_last};
use crate::types::chat::BuildError;
use crate::types::text::IntoText;

verus! {

/// Audio MIME type for a transcription request.
#[derive(Debug, Clone, Copy, PartialEq, Eq, Structural)]
pub enum Mime {
    /// `audio/wav`
    Wav,
    /// `audio/webm`
    Webm,
    /// `audio/mp4`
    Mp4,
    /// `audio/m4a`
    M4a,
    /// `audio/mpeg`
    Mpeg,
    /// `audio/mp3`
    Mp3,
}

/// A request to create a transcription.
///
/// Construct with [`TranscriptionRequest::builder`].
#[derive(Debug, Clone, PartialEq, Eq)]
pub struct TranscriptionRequest {
    /// Base64-encoded audio bytes (no `data:` prefix).
    pub base64: String,
    /// Source audio MIME type.
    pub mime: Option<Mime>,
}

impl TranscriptionRequest {
    /// Starts a builder for a transcription request.
    pub fn builder() -> (r: TranscriptionRequestBuilder)
        ensures
            r@.base64 is None,
            r@.mime is None,
            r@ == transcription_after(Seq::empty()),
    {
        TranscriptionRequestBuilder { base64: None, mime: None }
    }
}

/// The fields set on a [`TranscriptionRequestBuilder`].
pub struct TranscriptionRequestBuilderModel {
    /// The audio payload, once set.
    pub base64: Option<Seq<char>>,
    /// The MIME type, once set.
    pub mime: Option<Mime>,
}

/// Builder for [`TranscriptionRequest`].
///
/// The base64 audio payload is required.
#[derive(Debug, Clone)]
pub struct TranscriptionRequestBuilder {
    base64: Option<String>,
    mime: Option<Mime>,
}

impl View for TranscriptionRequestBuilder {
    type V = TranscriptionRequestBuilderModel;

    closed spec fn view(&self) -> TranscriptionRequestBuilderModel {
        TranscriptionRequestBuilderModel { base64: opt_view(self.base64), mime: self.mime }
    }
}

impl TranscriptionRequestBuilder {
    /// Sets the base64-encoded audio payload.
    pub fn base64<T: IntoText>(self, base64: T) -> (r: Self)
        ensures
            r@.base64 == Some(base64.text_view()),
            r@.mime == self@.mime,
            r@ == transcription_step(self@, TranscriptionCall::Base64(base64.text_view())),
    {
        let mut b = self;
        b.base64 = Some(base64.into_text());
        b
    }

    /// Sets the source MIME type.
    pub fn mime(self, mime: Mime) -> (r: Self)
        ensures
            r@.base64 == self@.base64,
            r@.mime == Some(mime),
            r@ == transcription_step(self@, TranscriptionCall::Mime(mime)),
    {
        let mut b = self;
        b.mime = Some(mime);
        b
    }

    /// Finalizes the request.
    ///
    /// # Errors
    ///
    /// Returns [`BuildError::MissingInput`] if no audio payload was set.
    pub fn build(self) -> (r: Result<TranscriptionRequest, BuildError>)
        ensures
            transcription_built(self@, r),
    {
        match self.base64 {
            None => Err(BuildError::MissingInput),
            Some(base64) => Ok(TranscriptionRequest { base64, mime: self.mime }),
        }
    }
}

/// The response from `POST /v1/audio/transcriptions`.
#[derive(Debug, Clone, PartialEq, Eq)]
pub struct TranscriptionResponse {
    /// Transcribed text.
    pub text: String,
}

/// A voice for speech synthesis.
#[derive(Debug, Clone, Copy, PartialEq, Eq, Structural)]
pub enum Voice {
    /// `alloy`
    Alloy,
    /// `ash`
    Ash,
    /// `ballad`
    Ballad,
    /// `coral`
    Coral,
    /// `echo`
    Echo,
    /// `fable`
    Fable,
    /// `nova`
    Nova,
    /// `onyx`
    Onyx,
    /// `sage`
    Sage,
    /// `shimmer`
    Shimmer,
}

/// A request to create synthesized speech.
///
/// Construct with [`SpeechRequest::builder`].
#[derive(Debug, Clone, PartialEq, Eq)]
pub struct SpeechRequest {
    /// Text to synthesize (max 4000 characters).
    pub input: String,
    /// Voice to use.
    pub voice: Option<Voice>,
}

impl SpeechRequest {
    /// Starts a builder for a speech request.
    pub fn builder() -> (r: SpeechRequestBuilder)
        ensures
            r@.input is None,
            r@.voice is None,
            r@ == speech_after(Seq::empty()),
    {
        SpeechRequestBuilder { input: None, voice: None }
    }
}

/// The fields set on a [`SpeechRequestBuilder`].
pub struct SpeechRequestBuilderModel {
    /// The text, once set.
    pub input: Option<Seq<char>>,
    /// The voice, once set.
    pub voice: Option<Voice>,
}

/// Builder for [`SpeechRequest`].
///
/// `input` is required.
#[derive(Debug, Clone)]
pub struct SpeechRequestBuilder {
    input: Option<String>,
    voice: Option<Voice>,
}

impl View for SpeechRequestBuilder {
    type V = SpeechRequestBuilderModel;

    closed spec fn view(&self) -> SpeechRequestBuilderModel {
        SpeechRequestBuilderModel { input: opt_view(self.input), voice: self.voice }
    }
}

impl SpeechRequestBuilder {
    /// Sets the text to synthesize.
    pub fn input<T: IntoText>(self, input: T) -> (r: Self)
        ensures
            r@.input == Some(input.text_view()),
            r@.voice == self@.voice,
            r@ == speech_step(self@, SpeechCall::Input(input.text_view())),
    {
        let mut b = self;
        b.input = Some(input.into_text());
        b
    }

    /// Sets the voice.
    pub fn voice(self, voice: Voice) -> (r: Self)
        ensures
            r@.input == self@.input,
            r@.voice == Some(voice),
            r@ == speech_step(self@, SpeechCall::Voice(voice)),
    {
        let mut b = self;
        b.voice = Some(voice);
        b
    }

    /// Finalizes the request.
    ///
    /// # Errors
    ///
    /// Returns [`BuildError::MissingInput`] if no input text was set.
    pub fn build(self) -> (r: Result<SpeechRequest, BuildError>)
        ensures
            speech_built(self@, r),
    {
        match self.input {
            None => Err(BuildError::MissingInput),
            Some(input) => Ok(SpeechRequest { input, voice: self.voice }),
        }
    }
}

/// One call on a [`TranscriptionRequestBuilder`].
pub enum TranscriptionCall {
    /// `base64` with this payload.
    Base64(Seq<char>),
    /// `mime` with this type.
    Mime(Mime),
}

/// The fields of a transcription builder after one more call.
pub open spec fn transcription_step(
    m: TranscriptionRequestBuilderModel,
    c: TranscriptionCall,
) -> TranscriptionRequestBuilderModel {
    match c {
        TranscriptionCall::Base64(b) => TranscriptionRequestBuilderModel {
            base64: Some(b),
            mime: m.mime,
        },
        TranscriptionCall::Mime(x) => TranscriptionRequestBuilderModel {
            base64: m.base64,
            mime: Some(x),
        },
    }
}

/// The fields of `TranscriptionRequest::builder()` after `calls`, in order.
pub open spec fn transcription_after(calls: Seq<TranscriptionCall>) -> TranscriptionRequestBuilderModel
    decreases calls.len(),
{
    if calls.len() == 0 {
        TranscriptionRequestBuilderModel { base64: None, mime: None }
    } else {
        transcription_step(transcription_after(calls.drop_last()), calls.last())
    }
}

/// The payload a call gives, if it is a `base64` call.
pub open spec fn call_base64(c: TranscriptionCall) -> Option<Seq<char>> {
    match c {
        TranscriptionCall::Base64(b) => Some(b),
        _ => None,
    }
}

/// The type a call gives, if it is a `mime` call.
pub open spec fn call_mime(c: TranscriptionCall) -> Option<Mime> {
    match c {
        TranscriptionCall::Mime(x) => Some(x),
        _ => None,
    }
}

/// Whether `r` is what `build` gives on a builder with fields `m`: the
/// missing-input error without a payload, else the request of those fields.
pub open spec fn transcription_built(
    m: TranscriptionRequestBuilderModel,
    r: Result<TranscriptionRequest, BuildError>,
) -> bool {
    match m.base64 {
        None => r == Err::<TranscriptionRequest, BuildError>(BuildError::MissingInput),
        Some(b) => r matches Ok(req) && req.base64@ == b && req.mime == m.mime,
    }
}

/// Law: whatever sequence of `base64` and `mime` calls follows
/// `TranscriptionRequest::builder()`, `build` fails with `MissingInput`
/// exactly when `base64` was never called, and otherwise gives the last
/// payload and the last MIME type set (none if `mime` was never called).
pub proof fn law_transcription_builder(
    calls: Seq<TranscriptionCall>,
    r: Result<TranscriptionRequest, BuildError>,
)
    ensures
        transcription_after(calls) == (TranscriptionRequestBuilderModel {
            base64: last_set(calls.map_values(|c: TranscriptionCall| call_base64(c))),
            mime: last_set(calls.map_values(|c: TranscriptionCall| call_mime(c))),
        }),
        transcription_built(transcription_after(calls), r) <==> match last_set(
            calls.map_values(|c: TranscriptionCall| call_base64(c)),
        ) {
            None => r == Err::<TranscriptionRequest, BuildError>(BuildError::MissingInput),
            Some(b) => r matches Ok(req) && req.base64@ == b && req.mime == last_set(
                calls.map_values(|c: TranscriptionCall| call_mime(c)),
            ),
        },
    decreases calls.len(),
{
    if calls.len() > 0 {
        law_transcription_builder(calls.drop_last(), r);
        lemma_map_drop_last(calls, |c: TranscriptionCall| call_base64(c));
        lemma_map_drop_last(calls, |c: TranscriptionCall| call_mime(c));
    }
}

/// One call on a [`SpeechRequestBuilder`].
pub enum SpeechCall {
    /// `input` with this text.
    Input(Seq<char>),
    /// `voice` with this voice.
    Voice(Voice),
}

/// The fields of a speech builder after one more call.
pub open spec fn speech_step(m: SpeechRequestBuilderModel, c: SpeechCall) -> SpeechRequestBuilderModel {
    match c {
        SpeechCall::Input(i) => SpeechRequestBuilderModel { input: Some(i), voice: m.voice },
        SpeechCall::Voice(v) => SpeechRequestBuilderModel { input: m.input, voice: Some(v) },
    }
}

/// The fields of `SpeechRequest::builder()` after `calls`, in order.
pub open spec fn speech_after(calls: Seq<SpeechCall>) -> SpeechRequestBuilderModel
    decreases calls.len(),
{
    if calls.len() == 0 {
        SpeechRequestBuilderModel { input: None, voice: None }
    } else {
        speech_step(speech_after(calls.drop_last()), calls.last())
    }
}

/// The text a call gives, if it is an `input` call.
pub open spec fn call_input(c: SpeechCall) -> Option<Seq<char>> {
    match c {
        SpeechCall::Input(i) => Some(i),
        _ => None,
    }
}

/// The voice a call gives, if it is a `voice` call.
pub open spec fn call_voice(c: SpeechCall) -> Option<Voice> {
    match c {
        SpeechCall::Voice(v) => Some(v),
        _ => None,
    }
}

/// Whether `r` is what `build` gives on a builder with fields `m`: the
/// missing-input error without a text, else the request of those fields.
pub open spec fn speech_built(m: SpeechRequestBuilderModel, r: Result<SpeechRequest, BuildError>) -> bool {
    match m.input {
        None => r == Err::<SpeechRequest, BuildError>(BuildError::MissingInput),
        Some(i) => r matches Ok(req) && req.input@ == i && req.voice == m.voice,
    }
}

/// Law: whatever sequence of `input` and `voice` calls follows
/// `SpeechRequest::builder()`, `build` fails with `MissingInput` exactly when
/// `input` was never called, and otherwise gives the last text and the last
/// voice set (none if `voice` was never called).
pub proof fn law_speech_builder(calls: Seq<SpeechCall>, r: Result<SpeechRequest, BuildError>)
    ensures
        speech_after(calls) == (SpeechRequestBuilderModel {
            input: last_set(calls.map_values(|c: SpeechCall| call_input(c))),
            voice: last_set(calls.map_values(|c: SpeechCall| call_voice(c))),
        }),
        speech_built(speech_after(calls), r) <==> match last_set(
            calls.map_values(|c: SpeechCall| call_input(c)),
        ) {
            None => r == Err::<SpeechRequest, BuildError>(BuildError::MissingInput),
            Some(i) => r matches Ok(req) && req.input@ == i && req.voice == last_set(
                calls.map_values(|c: SpeechCall| call_voice(c)),
            ),
        },
    decreases calls.len(),
{
    if calls.len() > 0 {
        law_speech_builder(calls.drop_last(), r);
        lemma_map_drop_last(calls, |c: SpeechCall| call_input(c));
        lemma_map_drop_last(calls, |c: SpeechCall| call_voice(c));
    }
}

} // verus!
