//! The durable build of the interface, call by call.
//!
//! A durable call is planned (`plans`), then driven by `durability::step`:
//! live, the provider is handed the planned request (the functions here
//! named `*_answer`), one entry is appended to the oplog (the planned call,
//! its kind, the planned input and the provider's answer) and the caller
//! receives the answer; on replay, the answer recorded for the planned call
//! is read back and handed to the caller, the provider is not called and
//! nothing is recorded. Where the caller receives more than the answer (a
//! listing, a lookup, a stream), the functions here named `*_delivered` say
//! what, live and on replay alike.
use crate::durability::{
    lemma_replayed_session, lemma_runs, live_deliveries, live_oplog, live_run, replay_deliveries,
    replay_run, touches_provider_or_oplog, CallAction, DurableCall,
    DurableFunction, DurableFunctionType, OplogEntry,
};
use crate::guest::{ExtendedGuest, StreamRequest, SynthesisRequest, TtsGuest};
use crate::plans::{
    get_voice_planned, list_voices_planned, long_form_planned, no_input_planned,
    search_voices_planned, send_text_planned, stream_creation_planned, synthesize_batch_planned,
    synthesize_planned,
};
use crate::records::{
    spec_batch_records, spec_batch_requests, ConvertVoiceInput, LongFormInput, NoInput,
    SearchVoiceInput, SoundEffectInput, StreamInput, SynthesizeInput, TimingInput,
    VoiceCloneInput, VoiceDesignInput, VoicesInput, BatchInput,
};
use crate::streams::{
    creation_record_of, replayed_creation_of, replayed_stream_creation, stream_creation_record,
    DurableSynthesisStream, DurableVoiceConversionStream, StreamKind,
};
use crate::types::{
    LongFormResult, SynthesisOptions, SynthesisResult, TextInput, TimingInfo, TtsError,
    ValidationResult, VoiceFilter, VoiceInfo,
};
use crate::durable_tts::DurableTts;
use vstd::prelude::*;

verus! {

impl<Impl: ExtendedGuest> DurableTts<Impl> {
    /// The provider's answer to a live durable voice listing.
    pub fn list_voices_answer(request: Option<VoiceFilter>) -> (r: Result<Vec<VoiceInfo>, TtsError>)
        ensures
            call_ensures(Impl::list_voices, (request,), r),
    {
        Impl::list_voices(request)
    }

    /// The provider's answer to a live durable voice lookup.
    pub fn get_voice_answer(request: String) -> (r: Result<VoiceInfo, TtsError>)
        ensures
            call_ensures(Impl::get_voice, (request,), r),
    {
        Impl::get_voice(request)
    }

    /// The provider's answer to a live durable voice search.
    pub fn search_voices_answer(request: SearchVoiceInput) -> (r: Result<Vec<VoiceInfo>, TtsError>)
        ensures
            call_ensures(Impl::search_voices, (request.query, request.filter), r),
    {
        Impl::search_voices(request.query, request.filter)
    }

    /// The provider's answer to a live durable language listing.
    pub fn list_languages_answer(request: NoInput) -> (r: Result<Vec<String>, TtsError>)
        ensures
            call_ensures(Impl::list_languages, (), r),
    {
        Impl::list_languages()
    }

    /// The provider's answer to a live durable synthesis.
    pub fn synthesize_answer(request: SynthesisRequest) -> (r: Result<SynthesisResult, TtsError>)
        ensures
            call_ensures(Impl::synthesize, (request,), r),
    {
        Impl::synthesize(request)
    }

    /// The provider's answer to a live durable batch synthesis.
    pub fn synthesize_batch_answer(request: Vec<SynthesisRequest>) -> (r: Result<Vec<SynthesisResult>, TtsError>)
        ensures
            call_ensures(Impl::synthesize_batch, (request,), r),
    {
        Impl::synthesize_batch(request)
    }

    /// The provider's answer to a live durable timing query.
    pub fn get_timing_marks_answer(request: TimingInput) -> (r: Result<Vec<TimingInfo>, TtsError>)
        ensures
            call_ensures(Impl::get_timing_marks, (request.input, request.voice_id), r),
    {
        Impl::get_timing_marks(request.input, request.voice_id)
    }

    /// The provider's answer to a live durable validation.
    pub fn validate_input_answer(request: TimingInput) -> (r: Result<ValidationResult, TtsError>)
        ensures
            call_ensures(Impl::validate_input, (request.input, request.voice_id), r),
    {
        Impl::validate_input(request.input, request.voice_id)
    }

    /// A live durable synthesis stream creation: the stream the caller
    /// receives (the provider's stream, live) and what is recorded in its
    /// place, both from the provider's one answer.
    pub fn create_stream_answer(request: StreamRequest) -> (r: (
        Result<DurableSynthesisStream<Impl>, TtsError>,
        Result<StreamInput, TtsError>,
    ))
        ensures
            exists|answer: Result<Impl::SynthesisStream, TtsError>|
                #[trigger] call_ensures(Impl::create_stream, (request,), answer)
                    && (answer matches Ok(p) ==> (r.0 matches Ok(s) && s.is_live() && s.provider_stream() == p))
                    && (answer matches Err(e) ==> r.0 == Err::<DurableSynthesisStream<Impl>, TtsError>(e))
                    && creation_record_of(answer, r.1),
    {
        let answer = Impl::create_stream(request);
        let record = stream_creation_record(&answer);
        let opened = match answer {
            Ok(stream) => Ok(DurableSynthesisStream::live(stream)),
            Err(e) => Err(e),
        };
        (opened, record)
    }

    /// What the caller of a durable synthesis stream creation receives:
    /// live, the stream opened by the live half; on replay, where nothing was
    /// opened, what the recorded creation allows (never a stream).
    pub fn create_stream_delivered(
        opened: Option<Result<DurableSynthesisStream<Impl>, TtsError>>,
        delivered: Result<StreamInput, TtsError>,
    ) -> (r: Result<DurableSynthesisStream<Impl>, TtsError>)
        ensures
            opened matches Some(o) ==> r == o,
            opened is None ==> replayed_creation_of(StreamKind::Synthesis, delivered, r),
    {
        match opened {
            Some(o) => o,
            None => replayed_stream_creation(StreamKind::Synthesis, delivered),
        }
    }

    /// A live durable voice conversion stream creation: the stream the caller
    /// receives and what is recorded in its place, both from the provider's
    /// one answer.
    pub fn create_voice_conversion_stream_answer(request: StreamRequest) -> (r: (
        Result<DurableVoiceConversionStream<Impl>, TtsError>,
        Result<StreamInput, TtsError>,
    ))
        ensures
            exists|answer: Result<Impl::VoiceConversionStream, TtsError>|
                #[trigger] call_ensures(Impl::create_voice_conversion_stream, (request,), answer)
                    && (answer matches Ok(p) ==> (r.0 matches Ok(s) && s.provider_stream() == p))
                    && (answer matches Err(e) ==> r.0 == Err::<DurableVoiceConversionStream<Impl>, TtsError>(e))
                    && creation_record_of(answer, r.1),
    {
        let answer = Impl::create_voice_conversion_stream(request);
        let record = stream_creation_record(&answer);
        let opened = match answer {
            Ok(stream) => Ok(DurableVoiceConversionStream::new(stream)),
            Err(e) => Err(e),
        };
        (opened, record)
    }

    /// What the caller of a durable voice conversion stream creation
    /// receives: live, the stream opened by the live half; on replay, what
    /// the recorded creation allows (never a stream).
    pub fn create_voice_conversion_stream_delivered(
        opened: Option<Result<DurableVoiceConversionStream<Impl>, TtsError>>,
        delivered: Result<StreamInput, TtsError>,
    ) -> (r: Result<DurableVoiceConversionStream<Impl>, TtsError>)
        ensures
            opened matches Some(o) ==> r == o,
            opened is None ==> replayed_creation_of(StreamKind::VoiceConversion, delivered, r),
    {
        match opened {
            Some(o) => o,
            None => replayed_stream_creation(StreamKind::VoiceConversion, delivered),
        }
    }

    /// The provider's answer to a live durable voice clone.
    pub fn create_voice_clone_answer(request: VoiceCloneInput) -> (r: Result<String, TtsError>)
        ensures
            call_ensures(Impl::create_voice_clone, (request.name, request.audio_samples, request.description), r),
    {
        Impl::create_voice_clone(request.name, request.audio_samples, request.description)
    }

    /// The provider's answer to a live durable voice design.
    pub fn design_voice_answer(request: VoiceDesignInput) -> (r: Result<String, TtsError>)
        ensures
            call_ensures(Impl::design_voice, (request.name, request.characteristics), r),
    {
        Impl::design_voice(request.name, request.characteristics)
    }

    /// The provider's answer to a live durable voice conversion.
    pub fn convert_voice_answer(request: ConvertVoiceInput) -> (r: Result<SynthesisResult, TtsError>)
        ensures
            call_ensures(
                Impl::convert_voice,
                (request.input_audio, request.voice_id, request.preserve_timing),
                r,
            ),
    {
        Impl::convert_voice(request.input_audio, request.voice_id, request.preserve_timing)
    }

    /// The provider's answer to a live durable sound effect.
    pub fn generate_sound_effect_answer(request: SoundEffectInput) -> (r: Result<SynthesisResult, TtsError>)
        ensures
            call_ensures(
                Impl::generate_sound_effect,
                (request.description, request.duration_seconds, request.style_influence),
                r,
            ),
    {
        Impl::generate_sound_effect(request.description, request.duration_seconds, request.style_influence)
    }

    /// The provider's answer to a live durable long-form synthesis.
    pub fn synthesize_long_form_answer(request: LongFormInput) -> (r: Result<LongFormResult, TtsError>)
        ensures
            call_ensures(
                Impl::synthesize_long_form,
                (request.content, request.voice_id, request.output_location, request.chapter_breaks),
                r,
            ),
    {
        Impl::synthesize_long_form(request.content, request.voice_id, request.output_location, request.chapter_breaks)
    }
}

/// A durable synthesis, live: the provider is handed the text, the voice and
/// the options; one entry is appended, recorded as `synthesize` (a remote
/// write) with that text, voice and options and the provider's answer; the
/// caller receives what recording gave back. Replayed: the `synthesize`
/// record is read back and handed to the caller, and neither the provider
/// nor the oplog is touched.
pub proof fn lemma_durable_synthesize(
    c: DurableCall<SynthesizeInput, SynthesisRequest>,
    input: TextInput,
    voice_id: String,
    options: Option<SynthesisOptions>,
    answer: Result<SynthesisResult, TtsError>,
    given_back: Result<SynthesisResult, TtsError>,
    recorded: Result<SynthesisResult, TtsError>,
)
    requires
        synthesize_planned(c, input, voice_id, options),
    ensures
        live_run(c, answer, given_back) == seq![
            CallAction::CallProvider(SynthesisRequest { input, voice_id, options }),
            CallAction::Record(
                OplogEntry {
                    function: DurableFunction::Synthesize,
                    kind: DurableFunctionType::WriteRemote,
                    input: SynthesizeInput { input, voice_id, options },
                    answer,
                },
            ),
            CallAction::Deliver(given_back),
        ],
        replay_run(c, recorded) == seq![
            CallAction::<SynthesizeInput, SynthesisRequest, SynthesisResult>::ReadRecorded(DurableFunction::Synthesize),
            CallAction::Deliver(recorded),
        ],
{
    lemma_runs(c, answer, given_back, recorded);
}

/// A durable batch synthesis, live: the provider is handed one request per
/// input, in order, each with the voice and the options; one entry is
/// appended, recorded as `synthesize_batch` (a remote write) with one record
/// per input in the same order and the provider's answer; the caller
/// receives what recording gave back. Replayed: the `synthesize_batch`
/// record is read back and handed to the caller, and neither the provider
/// nor the oplog is touched.
pub proof fn lemma_durable_synthesize_batch(
    c: DurableCall<BatchInput, Vec<SynthesisRequest>>,
    inputs: Seq<TextInput>,
    voice_id: String,
    options: Option<SynthesisOptions>,
    answer: Result<Vec<SynthesisResult>, TtsError>,
    given_back: Result<Vec<SynthesisResult>, TtsError>,
    recorded: Result<Vec<SynthesisResult>, TtsError>,
)
    requires
        synthesize_batch_planned(c, inputs, voice_id, options),
    ensures
        ({
            let live = live_run(c, answer, given_back);
            &&& live.len() == 3
            &&& live[0] matches CallAction::CallProvider(requests) && requests@ == spec_batch_requests(inputs, voice_id, options)
            &&& live[1] matches CallAction::Record(entry) && entry.function == DurableFunction::SynthesizeBatch
                && entry.kind == DurableFunctionType::WriteRemote
                && entry.input.requests@ == spec_batch_records(inputs, voice_id, options)
                && entry.answer == answer
            &&& live[2] == CallAction::<BatchInput, Vec<SynthesisRequest>, Vec<SynthesisResult>>::Deliver(given_back)
        }),
        replay_run(c, recorded) == seq![
            CallAction::<BatchInput, Vec<SynthesisRequest>, Vec<SynthesisResult>>::ReadRecorded(DurableFunction::SynthesizeBatch),
            CallAction::Deliver(recorded),
        ],
{
    lemma_runs(c, answer, given_back, recorded);
}

/// A durable voice listing, live: the provider is handed the filter; one
/// entry is appended, recorded as `list_voices` (a remote write) with the
/// filter and the provider's voices. Replayed: the `list_voices` record is
/// read back, and neither the provider nor the oplog is touched. The caller
/// receives the voices handed over, live or replayed, in order.
pub proof fn lemma_durable_list_voices(
    c: DurableCall<VoicesInput, Option<VoiceFilter>>,
    filter: Option<VoiceFilter>,
    answer: Result<Vec<VoiceInfo>, TtsError>,
    given_back: Result<Vec<VoiceInfo>, TtsError>,
    recorded: Result<Vec<VoiceInfo>, TtsError>,
)
    requires
        list_voices_planned(c, filter),
    ensures
        live_run(c, answer, given_back) == seq![
            CallAction::CallProvider(filter),
            CallAction::Record(
                OplogEntry {
                    function: DurableFunction::ListVoices,
                    kind: DurableFunctionType::WriteRemote,
                    input: VoicesInput { filter },
                    answer,
                },
            ),
            CallAction::Deliver(given_back),
        ],
        replay_run(c, recorded) == seq![
            CallAction::<VoicesInput, Option<VoiceFilter>, Vec<VoiceInfo>>::ReadRecorded(DurableFunction::ListVoices),
            CallAction::Deliver(recorded),
        ],
{
    lemma_runs(c, answer, given_back, recorded);
}

/// A durable voice lookup, live: the provider is handed the identifier; one
/// entry is appended, recorded as `get_voice` (a remote write) with the
/// identifier and the provider's voice. Replayed: the `get_voice` record is
/// read back, and neither the provider nor the oplog is touched.
pub proof fn lemma_durable_get_voice(
    c: DurableCall<crate::records::VoiceInput, String>,
    voice_id: String,
    answer: Result<VoiceInfo, TtsError>,
    given_back: Result<VoiceInfo, TtsError>,
    recorded: Result<VoiceInfo, TtsError>,
)
    requires
        get_voice_planned(c, voice_id),
    ensures
        live_run(c, answer, given_back) == seq![
            CallAction::CallProvider(voice_id),
            CallAction::Record(
                OplogEntry {
                    function: DurableFunction::GetVoice,
                    kind: DurableFunctionType::WriteRemote,
                    input: crate::records::VoiceInput { voice_id },
                    answer,
                },
            ),
            CallAction::Deliver(given_back),
        ],
        replay_run(c, recorded) == seq![
            CallAction::<crate::records::VoiceInput, String, VoiceInfo>::ReadRecorded(DurableFunction::GetVoice),
            CallAction::Deliver(recorded),
        ],
{
    lemma_runs(c, answer, given_back, recorded);
}

/// A durable voice search, live: the provider is handed the query and the
/// filter; one entry is appended, recorded as `search_voices` (a remote
/// write) with the query, the filter and the provider's voices. Replayed:
/// the `search_voices` record is read back, and neither the provider nor
/// the oplog is touched.
pub proof fn lemma_durable_search_voices(
    c: DurableCall<SearchVoiceInput, SearchVoiceInput>,
    query: String,
    filter: Option<VoiceFilter>,
    answer: Result<Vec<VoiceInfo>, TtsError>,
    given_back: Result<Vec<VoiceInfo>, TtsError>,
    recorded: Result<Vec<VoiceInfo>, TtsError>,
)
    requires
        search_voices_planned(c, query, filter),
    ensures
        live_run(c, answer, given_back) == seq![
            CallAction::CallProvider(SearchVoiceInput { query, filter }),
            CallAction::Record(
                OplogEntry {
                    function: DurableFunction::SearchVoices,
                    kind: DurableFunctionType::WriteRemote,
                    input: SearchVoiceInput { query, filter },
                    answer,
                },
            ),
            CallAction::Deliver(given_back),
        ],
        replay_run(c, recorded) == seq![
            CallAction::<SearchVoiceInput, SearchVoiceInput, Vec<VoiceInfo>>::ReadRecorded(DurableFunction::SearchVoices),
            CallAction::Deliver(recorded),
        ],
{
    lemma_runs(c, answer, given_back, recorded);
}

/// A durable long-form synthesis, live: the provider is handed the content,
/// the voice, the output location and the chapter breaks; one entry is
/// appended, recorded as `synthesize_long_form` (a remote write) with those
/// arguments and the provider's answer. Replayed: the record is read back,
/// and neither the provider nor the oplog is touched.
pub proof fn lemma_durable_synthesize_long_form(
    c: DurableCall<LongFormInput, LongFormInput>,
    content: String,
    voice_id: String,
    output_location: String,
    chapter_breaks: Option<Vec<u32>>,
    answer: Result<LongFormResult, TtsError>,
    given_back: Result<LongFormResult, TtsError>,
    recorded: Result<LongFormResult, TtsError>,
)
    requires
        long_form_planned(c, content, voice_id, output_location, chapter_breaks),
    ensures
        ({
            let live = live_run(c, answer, given_back);
            &&& live.len() == 3
            &&& live[0] == CallAction::<LongFormInput, LongFormInput, LongFormResult>::CallProvider(
                LongFormInput { content, voice_id, output_location, chapter_breaks },
            )
            &&& live[1] matches CallAction::Record(entry) && entry.function == DurableFunction::SynthesizeLongForm
                && entry.kind == DurableFunctionType::WriteRemote
                && entry.input.content == content && entry.input.voice_id == voice_id
                && entry.input.output_location == output_location
                && entry.input == c.input
                && entry.answer == answer
            &&& live[2] == CallAction::<LongFormInput, LongFormInput, LongFormResult>::Deliver(given_back)
        }),
        replay_run(c, recorded) == seq![
            CallAction::<LongFormInput, LongFormInput, LongFormResult>::ReadRecorded(DurableFunction::SynthesizeLongForm),
            CallAction::Deliver(recorded),
        ],
{
    lemma_runs(c, answer, given_back, recorded);
}

/// Text sent durably to a live stream: the stream is handed the text; one
/// entry is appended, recorded as `stream_send_text` (a remote write) with
/// the text and the stream's answer. Replayed: the record is read back, and
/// neither the stream nor the oplog is touched.
pub proof fn lemma_durable_send_text(
    c: DurableCall<TextInput, TextInput>,
    input: TextInput,
    answer: Result<(), TtsError>,
    given_back: Result<(), TtsError>,
    recorded: Result<(), TtsError>,
)
    requires
        send_text_planned(c, input),
    ensures
        live_run(c, answer, given_back) == seq![
            CallAction::CallProvider(input),
            CallAction::Record(
                OplogEntry {
                    function: DurableFunction::StreamSendText,
                    kind: DurableFunctionType::WriteRemote,
                    input,
                    answer,
                },
            ),
            CallAction::Deliver(given_back),
        ],
        replay_run(c, recorded) == seq![
            CallAction::<TextInput, TextInput, ()>::ReadRecorded(DurableFunction::StreamSendText),
            CallAction::Deliver(recorded),
        ],
{
    lemma_runs(c, answer, given_back, recorded);
}

/// A durable receipt of a stream's next chunk, live: the stream is asked for
/// its next chunk; one entry is appended, recorded as
/// `stream_receive_chunk` (a remote read) with no input and the stream's
/// answer. Replayed: the record is read back, and neither the stream nor
/// the oplog is touched.
pub proof fn lemma_durable_receive_chunk(
    c: DurableCall<NoInput, NoInput>,
    answer: Result<Option<crate::types::AudioChunk>, TtsError>,
    given_back: Result<Option<crate::types::AudioChunk>, TtsError>,
    recorded: Result<Option<crate::types::AudioChunk>, TtsError>,
)
    requires
        no_input_planned(c, DurableFunction::StreamReceiveChunk),
    ensures
        live_run(c, answer, given_back) == seq![
            CallAction::CallProvider(NoInput {}),
            CallAction::Record(
                OplogEntry {
                    function: DurableFunction::StreamReceiveChunk,
                    kind: DurableFunctionType::ReadRemote,
                    input: NoInput {},
                    answer,
                },
            ),
            CallAction::Deliver(given_back),
        ],
        replay_run(c, recorded) == seq![
            CallAction::<NoInput, NoInput, Option<crate::types::AudioChunk>>::ReadRecorded(DurableFunction::StreamReceiveChunk),
            CallAction::Deliver(recorded),
        ],
{
    lemma_runs(c, answer, given_back, recorded);
}

/// A durable synthesis stream creation, live: the provider is handed the
/// voice and the options; one entry is appended, recorded as
/// `create_stream` (a remote write) with the voice and the options, and, in
/// place of the stream, an empty voice with no options (or the provider's
/// failure); the caller receives the provider's stream, live, or its
/// failure. Replayed: the `create_stream` record is read back, neither the
/// provider nor the oplog is touched, and the caller never receives a
/// stream: a recorded failure comes back as it was, a recorded creation as
/// unsupported.
pub proof fn lemma_durable_create_stream<S>(
    c: DurableCall<StreamInput, StreamRequest>,
    voice_id: String,
    options: Option<SynthesisOptions>,
    answer: Result<S, TtsError>,
    record: Result<StreamInput, TtsError>,
    given_back: Result<StreamInput, TtsError>,
    recorded: Result<StreamInput, TtsError>,
    replayed: Result<S, TtsError>,
)
    requires
        stream_creation_planned(c, DurableFunction::CreateStream, voice_id, options),
        creation_record_of(answer, record),
        replayed_creation_of(StreamKind::Synthesis, recorded, replayed),
    ensures
        live_run(c, record, given_back) == seq![
            CallAction::CallProvider(StreamRequest { voice_id, options }),
            CallAction::Record(
                OplogEntry {
                    function: DurableFunction::CreateStream,
                    kind: DurableFunctionType::WriteRemote,
                    input: StreamInput { voice_id, options },
                    answer: record,
                },
            ),
            CallAction::Deliver(given_back),
        ],
        answer is Ok ==> (record matches Ok(r) && r.voice_id@ == Seq::<char>::empty() && r.options is None),
        answer matches Err(e) ==> record == Err::<StreamInput, TtsError>(e),
        replay_run(c, recorded) == seq![
            CallAction::<StreamInput, StreamRequest, StreamInput>::ReadRecorded(DurableFunction::CreateStream),
            CallAction::Deliver(recorded),
        ],
        replayed is Err,
        recorded matches Err(e) ==> replayed == Err::<S, TtsError>(e),
{
    lemma_runs(c, record, given_back, recorded);
}

/// A durable voice conversion stream creation, live: the provider is handed
/// the voice and the options; one entry is appended, recorded as
/// `create_voice_conversion_stream` (a remote write) with the voice and the
/// options, and, in place of the stream, an empty voice with no options (or
/// the provider's failure). Replayed: the record is read back, neither the
/// provider nor the oplog is touched, and the caller never receives a
/// stream.
pub proof fn lemma_durable_create_voice_conversion_stream<S>(
    c: DurableCall<StreamInput, StreamRequest>,
    voice_id: String,
    options: Option<SynthesisOptions>,
    answer: Result<S, TtsError>,
    record: Result<StreamInput, TtsError>,
    given_back: Result<StreamInput, TtsError>,
    recorded: Result<StreamInput, TtsError>,
    replayed: Result<S, TtsError>,
)
    requires
        stream_creation_planned(c, DurableFunction::CreateVoiceConversionStream, voice_id, options),
        creation_record_of(answer, record),
        replayed_creation_of(StreamKind::VoiceConversion, recorded, replayed),
    ensures
        live_run(c, record, given_back) == seq![
            CallAction::CallProvider(StreamRequest { voice_id, options }),
            CallAction::Record(
                OplogEntry {
                    function: DurableFunction::CreateVoiceConversionStream,
                    kind: DurableFunctionType::WriteRemote,
                    input: StreamInput { voice_id, options },
                    answer: record,
                },
            ),
            CallAction::Deliver(given_back),
        ],
        replay_run(c, recorded) == seq![
            CallAction::<StreamInput, StreamRequest, StreamInput>::ReadRecorded(
                DurableFunction::CreateVoiceConversionStream,
            ),
            CallAction::Deliver(recorded),
        ],
        replayed is Err,
        recorded matches Err(e) ==> replayed == Err::<S, TtsError>(e),
{
    lemma_runs(c, record, given_back, recorded);
}

/// Chunk receipts from a stream replay as they ran. Run live, `n` receipts
/// append `n` entries in order, each recorded as `stream_receive_chunk` (a
/// remote read) with no input and the stream's answer, and hand their
/// callers the stream's answers in order. Replayed against that oplog, the
/// `n` receipts each ask for a `stream_receive_chunk` record and hand their
/// callers the same answers (the same chunks, the same ends of stream, the
/// same failures) in the same order, without asking the stream or recording.
pub proof fn lemma_replayed_receipts(
    calls: Seq<DurableCall<NoInput, NoInput>>,
    answers: Seq<Result<Option<crate::types::AudioChunk>, TtsError>>,
)
    requires
        calls.len() == answers.len(),
        forall|i: int| 0 <= i < calls.len() ==> no_input_planned(#[trigger] calls[i], DurableFunction::StreamReceiveChunk),
    ensures
        live_oplog(calls, answers).len() == calls.len(),
        forall|i: int|
            0 <= i < calls.len() ==> #[trigger] live_oplog(calls, answers)[i] == (OplogEntry {
                function: DurableFunction::StreamReceiveChunk,
                kind: DurableFunctionType::ReadRemote,
                input: NoInput {},
                answer: answers[i],
            }),
        live_deliveries(calls, answers) == answers,
        replay_deliveries(calls, live_oplog(calls, answers)) == answers,
        forall|i: int|
            0 <= i < calls.len() ==> #[trigger] replay_run(calls[i], live_oplog(calls, answers)[i].answer)[0]
                == CallAction::<NoInput, NoInput, Option<crate::types::AudioChunk>>::ReadRecorded(
                DurableFunction::StreamReceiveChunk,
            ),
        forall|i: int, k: int|
            0 <= i < calls.len() && 0 <= k < 2 ==> !touches_provider_or_oplog(
                #[trigger] replay_run(calls[i], live_oplog(calls, answers)[i].answer)[k],
            ),
{
    lemma_replayed_session(calls, answers);
    assert forall|i: int| 0 <= i < calls.len() implies #[trigger] replay_run(
        calls[i],
        live_oplog(calls, answers)[i].answer,
    )[0] == CallAction::<NoInput, NoInput, Option<crate::types::AudioChunk>>::ReadRecorded(
        DurableFunction::StreamReceiveChunk,
    ) by {
        assert(live_oplog(calls, answers)[i] == crate::durability::entry_of(calls[i], answers[i]));
    }
}

} // verus!
