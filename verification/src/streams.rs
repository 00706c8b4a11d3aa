//! Streams handed to callers, and the decisions of a durable stream creation.
use crate::guest::{ExtendedGuest, SynthesisStreamGuest, TtsGuest, VoiceConversionStreamGuest};
use crate::records::StreamInput;
use crate::types::{AudioChunk, StreamStatus, TextInput, TtsError};
use vstd::prelude::*;

verus! {

/// Whether a synthesis stream is backed by a provider's stream, or stands
/// for one while the worker replays.
#[verifier::reject_recursive_types(Impl)]
enum DurableStreamState<Impl: ExtendedGuest> {
    Live { stream: Impl::SynthesisStream },
    Replay,
}

/// A synthesis stream handed to callers.
#[verifier::reject_recursive_types(Impl)]
pub struct DurableSynthesisStream<Impl: ExtendedGuest> {
    state: DurableStreamState<Impl>,
}

impl<Impl: ExtendedGuest> DurableSynthesisStream<Impl> {
    /// Whether a provider's stream backs this stream.
    pub closed spec fn is_live(&self) -> bool {
        self.state is Live
    }

    /// The provider's stream behind this stream, when it is live.
    pub closed spec fn provider_stream(&self) -> Impl::SynthesisStream
        recommends
            self.is_live(),
    {
        self.state->stream
    }

    /// A live stream backed by the provider's `stream`.
    pub fn live(stream: Impl::SynthesisStream) -> (s: Self)
        ensures
            s.is_live(),
            s.provider_stream() == stream,
    {
        DurableSynthesisStream { state: DurableStreamState::Live { stream } }
    }

    /// Sends `input` to the provider's stream and answers what it answered;
    /// a replaying stream accepts the text and does nothing.
    pub fn send_text(&self, input: TextInput) -> (r: Result<(), TtsError>)
        ensures
            self.is_live() ==> call_ensures(
                Impl::SynthesisStream::send_text,
                (&self.provider_stream(), input),
                r,
            ),
            !self.is_live() ==> r is Ok,
    {
        match &self.state {
            DurableStreamState::Live { stream } => stream.send_text(input),
            DurableStreamState::Replay => Ok(()),
        }
    }

    /// Tells the provider's stream that no more text comes and answers what
    /// it answered; a replaying stream does nothing.
    pub fn finish(&self) -> (r: Result<(), TtsError>)
        ensures
            self.is_live() ==> call_ensures(Impl::SynthesisStream::finish, (&self.provider_stream(),), r),
            !self.is_live() ==> r is Ok,
    {
        match &self.state {
            DurableStreamState::Live { stream } => stream.finish(),
            DurableStreamState::Replay => Ok(()),
        }
    }

    /// The next chunk of the provider's stream, as it answered; a replaying
    /// stream has none.
    pub fn receive_chunk(&self) -> (r: Result<Option<AudioChunk>, TtsError>)
        ensures
            self.is_live() ==> call_ensures(
                Impl::SynthesisStream::receive_chunk,
                (&self.provider_stream(),),
                r,
            ),
            !self.is_live() ==> r == Ok::<Option<AudioChunk>, TtsError>(None),
    {
        match &self.state {
            DurableStreamState::Live { stream } => stream.receive_chunk(),
            DurableStreamState::Replay => Ok(None),
        }
    }

    /// Whether the provider's stream holds audio not yet received; a
    /// replaying stream holds none.
    pub fn has_pending_audio(&self) -> (pending: bool)
        ensures
            self.is_live() ==> call_ensures(
                Impl::SynthesisStream::has_pending_audio,
                (&self.provider_stream(),),
                pending,
            ),
            !self.is_live() ==> !pending,
    {
        match &self.state {
            DurableStreamState::Live { stream } => stream.has_pending_audio(),
            DurableStreamState::Replay => false,
        }
    }

    /// The status of the provider's stream; a replaying stream is finished.
    pub fn get_status(&self) -> (status: StreamStatus)
        ensures
            self.is_live() ==> call_ensures(Impl::SynthesisStream::get_status, (&self.provider_stream(),), status),
            !self.is_live() ==> status == StreamStatus::Finished,
    {
        match &self.state {
            DurableStreamState::Live { stream } => stream.get_status(),
            DurableStreamState::Replay => StreamStatus::Finished,
        }
    }

    /// Closes the provider's stream; a replaying stream has nothing to close.
    pub fn close(&self)
        ensures
            self.is_live() ==> call_ensures(Impl::SynthesisStream::close, (&self.provider_stream(),), ()),
    {
        match &self.state {
            DurableStreamState::Live { stream } => stream.close(),
            DurableStreamState::Replay => {},
        }
    }
}

/// A voice conversion stream handed to callers, backed by a provider's stream.
#[verifier::reject_recursive_types(Impl)]
pub struct DurableVoiceConversionStream<Impl: ExtendedGuest> {
    inner: Impl::VoiceConversionStream,
}

impl<Impl: ExtendedGuest> DurableVoiceConversionStream<Impl> {
    /// The provider's stream behind this stream.
    pub closed spec fn provider_stream(&self) -> Impl::VoiceConversionStream {
        self.inner
    }

    /// A stream backed by the provider's `stream`.
    pub fn new(stream: Impl::VoiceConversionStream) -> (s: Self)
        ensures
            s.provider_stream() == stream,
    {
        DurableVoiceConversionStream { inner: stream }
    }

    /// Sends audio to the provider's stream and answers what it answered.
    pub fn send_audio(&self, audio_data: Vec<u8>) -> (r: Result<(), TtsError>)
        ensures
            call_ensures(
                Impl::VoiceConversionStream::send_audio,
                (&self.provider_stream(), audio_data),
                r,
            ),
    {
        self.inner.send_audio(audio_data)
    }

    /// The next converted chunk of the provider's stream, as it answered.
    pub fn receive_converted(&self) -> (r: Result<Option<AudioChunk>, TtsError>)
        ensures
            call_ensures(Impl::VoiceConversionStream::receive_converted, (&self.provider_stream(),), r),
    {
        self.inner.receive_converted()
    }

    /// Tells the provider's stream that no more audio comes and answers what
    /// it answered.
    pub fn finish(&self) -> (r: Result<(), TtsError>)
        ensures
            call_ensures(Impl::VoiceConversionStream::finish, (&self.provider_stream(),), r),
    {
        self.inner.finish()
    }

    /// Closes the provider's stream.
    pub fn close(&self)
        ensures
            call_ensures(Impl::VoiceConversionStream::close, (&self.provider_stream(),), ()),
    {
        self.inner.close()
    }
}

/// The two kinds of stream a caller can open.
#[derive(Clone, Copy, Debug, PartialEq, Eq, Structural)]
pub enum StreamKind {
    Synthesis,
    VoiceConversion,
}

/// The message with which a replayed creation of a `kind` stream is refused.
pub open spec fn replay_refusal_message(kind: StreamKind) -> Seq<char> {
    match kind {
        StreamKind::Synthesis => "Streaming replay not supported"@,
        StreamKind::VoiceConversion => "Voice conversion replay not supported"@,
    }
}

/// Whether `record` is what a live stream creation records when the
/// provider answered `answer`: a stream cannot be recorded, so a created
/// stream is recorded as an empty voice with no options; a failure is
/// recorded as it is.
pub open spec fn creation_record_of<S>(answer: Result<S, TtsError>, record: Result<StreamInput, TtsError>) -> bool {
    &&& answer is Ok ==> (record matches Ok(r) && r.voice_id@ == Seq::<char>::empty() && r.options is None)
    &&& answer matches Err(e) ==> record == Err::<StreamInput, TtsError>(e)
}

/// Whether `r` is what a replayed creation of a `kind` stream hands its
/// caller when `recorded` was recorded: a stream cannot be rebuilt from the
/// record, so a creation that succeeded is refused as unsupported; a failure
/// is handed back as recorded.
pub open spec fn replayed_creation_of<S>(kind: StreamKind, recorded: Result<StreamInput, TtsError>, r: Result<S, TtsError>) -> bool {
    &&& recorded is Ok ==> (r matches Err(TtsError::UnsupportedOperation(m)) && m@ == replay_refusal_message(kind))
    &&& recorded matches Err(e) ==> r == Err::<S, TtsError>(e)
}

/// What a live stream creation records, given the provider's answer.
pub fn stream_creation_record<S>(answer: &Result<S, TtsError>) -> (record: Result<StreamInput, TtsError>)
    ensures
        creation_record_of(*answer, record),
{
    match answer {
        Ok(_) => Ok(StreamInput { voice_id: String::new(), options: None }),
        Err(e) => Err(e.duplicate()),
    }
}

/// What a replayed creation of a `kind` stream hands its caller, given what
/// was recorded.
pub fn replayed_stream_creation<S>(kind: StreamKind, recorded: Result<StreamInput, TtsError>) -> (r: Result<S, TtsError>)
    ensures
        replayed_creation_of(kind, recorded, r),
{
    match recorded {
        Ok(_) => {
            let message = match kind {
                StreamKind::Synthesis => "Streaming replay not supported".to_owned(),
                StreamKind::VoiceConversion => "Voice conversion replay not supported".to_owned(),
            };
            Err(TtsError::UnsupportedOperation(message))
        },
        Err(e) => Err(e),
    }
}

/// A stream creation that failed live fails the same way on replay; one that
/// succeeded live is refused on replay as unsupported, so replay never hands
/// out a stream.
pub proof fn lemma_replayed_creation<S, T>(
    kind: StreamKind,
    answer: Result<S, TtsError>,
    record: Result<StreamInput, TtsError>,
    replayed: Result<T, TtsError>,
)
    requires
        creation_record_of(answer, record),
        replayed_creation_of(kind, record, replayed),
    ensures
        answer matches Err(e) ==> replayed == Err::<T, TtsError>(e),
        answer is Ok ==> (replayed matches Err(TtsError::UnsupportedOperation(m)) && m@
            == replay_refusal_message(kind)),
        replayed is Err,
{
}

} // verus!
