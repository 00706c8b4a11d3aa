//! The durable-execution protocol of the TTS interface: under what name and
//! kind each call is recorded, and the decisions of one durable call.
//!
//! A durable call first learns whether the worker runs live or replays its
//! recorded history. Live, it calls the provider (without recording the
//! provider's own side effects), records the provider's answer beside its
//! input, and hands the answer to its caller. Replaying, it reads the
//! recorded answer back and hands that to its caller. The host performs each
//! action; `step` decides which comes next.
use crate::types::TtsError;
use vstd::prelude::*;

verus! {

/// The interface under which every call of this component is recorded.
pub fn interface_name() -> (name: &'static str)
    ensures
        name@ == spec_interface_name(),
{
    "golem_tts"
}

pub open spec fn spec_interface_name() -> Seq<char> {
    "golem_tts"@
}

/// How the host treats a recorded call when it replays it.
#[derive(Clone, Copy, Debug, PartialEq, Eq, Structural)]
pub enum DurableFunctionType {
    ReadRemote,
    WriteRemote,
}

/// Each call of the interface that is recorded.
#[derive(Clone, Copy, Debug, PartialEq, Eq, Structural)]
pub enum DurableFunction {
    ListVoices,
    GetVoice,
    SearchVoices,
    ListLanguages,
    Synthesize,
    SynthesizeBatch,
    GetTimingMarks,
    ValidateInput,
    StreamSendText,
    StreamFinish,
    StreamReceiveChunk,
    VoiceConversionSendAudio,
    VoiceConversionReceive,
    VoiceConversionFinish,
    CreateStream,
    CreateVoiceConversionStream,
    CreateVoiceClone,
    DesignVoice,
    ConvertVoice,
    GenerateSoundEffect,
    SynthesizeLongForm,
}

/// The name under which `f` is recorded.
pub open spec fn spec_function_name(f: DurableFunction) -> Seq<char> {
    match f {
        DurableFunction::ListVoices => "list_voices"@,
        DurableFunction::GetVoice => "get_voice"@,
        DurableFunction::SearchVoices => "search_voices"@,
        DurableFunction::ListLanguages => "list_languages"@,
        DurableFunction::Synthesize => "synthesize"@,
        DurableFunction::SynthesizeBatch => "synthesize_batch"@,
        DurableFunction::GetTimingMarks => "get_timing_marks"@,
        DurableFunction::ValidateInput => "validate_input"@,
        DurableFunction::StreamSendText => "stream_send_text"@,
        DurableFunction::StreamFinish => "stream_finish"@,
        DurableFunction::StreamReceiveChunk => "stream_receive_chunk"@,
        DurableFunction::VoiceConversionSendAudio => "voice_conversion_send_audio"@,
        DurableFunction::VoiceConversionReceive => "voice_conversion_receive"@,
        DurableFunction::VoiceConversionFinish => "voice_conversion_finish"@,
        DurableFunction::CreateStream => "create_stream"@,
        DurableFunction::CreateVoiceConversionStream => "create_voice_conversion_stream"@,
        DurableFunction::CreateVoiceClone => "create_voice_clone"@,
        DurableFunction::DesignVoice => "design_voice"@,
        DurableFunction::ConvertVoice => "convert_voice"@,
        DurableFunction::GenerateSoundEffect => "generate_sound_effect"@,
        DurableFunction::SynthesizeLongForm => "synthesize_long_form"@,
    }
}

/// The kind under which `f` is recorded: receiving audio from a stream reads
/// remote state, every other call writes it.
pub open spec fn spec_function_type(f: DurableFunction) -> DurableFunctionType {
    match f {
        DurableFunction::StreamReceiveChunk | DurableFunction::VoiceConversionReceive => {
            DurableFunctionType::ReadRemote
        },
        _ => DurableFunctionType::WriteRemote,
    }
}

impl DurableFunction {
    /// The name under which this call is recorded.
    pub fn name(&self) -> (name: &'static str)
        ensures
            name@ == spec_function_name(*self),
    {
        match self {
            DurableFunction::ListVoices => "list_voices",
            DurableFunction::GetVoice => "get_voice",
            DurableFunction::SearchVoices => "search_voices",
            DurableFunction::ListLanguages => "list_languages",
            DurableFunction::Synthesize => "synthesize",
            DurableFunction::SynthesizeBatch => "synthesize_batch",
            DurableFunction::GetTimingMarks => "get_timing_marks",
            DurableFunction::ValidateInput => "validate_input",
            DurableFunction::StreamSendText => "stream_send_text",
            DurableFunction::StreamFinish => "stream_finish",
            DurableFunction::StreamReceiveChunk => "stream_receive_chunk",
            DurableFunction::VoiceConversionSendAudio => "voice_conversion_send_audio",
            DurableFunction::VoiceConversionReceive => "voice_conversion_receive",
            DurableFunction::VoiceConversionFinish => "voice_conversion_finish",
            DurableFunction::CreateStream => "create_stream",
            DurableFunction::CreateVoiceConversionStream => "create_voice_conversion_stream",
            DurableFunction::CreateVoiceClone => "create_voice_clone",
            DurableFunction::DesignVoice => "design_voice",
            DurableFunction::ConvertVoice => "convert_voice",
            DurableFunction::GenerateSoundEffect => "generate_sound_effect",
            DurableFunction::SynthesizeLongForm => "synthesize_long_form",
        }
    }

    /// The kind under which this call is recorded.
    pub fn function_type(&self) -> (kind: DurableFunctionType)
        ensures
            kind == spec_function_type(*self),
    {
        match self {
            DurableFunction::StreamReceiveChunk => DurableFunctionType::ReadRemote,
            DurableFunction::VoiceConversionReceive => DurableFunctionType::ReadRemote,
            _ => DurableFunctionType::WriteRemote,
        }
    }
}

/// Whether the worker runs for the first time or replays its recorded history.
#[derive(Clone, Copy, Debug, PartialEq, Eq, Structural)]
pub enum ExecutionMode {
    Live,
    Replay,
}

/// One durable call, planned before the host is asked how the worker runs:
/// the call it is recorded as, the input recorded beside its answer, and the
/// request the provider is handed when the worker runs live.
pub struct DurableCall<In, Req> {
    pub function: DurableFunction,
    pub input: In,
    pub request: Req,
}

/// What a live durable call appends to the worker's oplog: under which call
/// and kind it is recorded, its input, and the provider's answer.
pub struct OplogEntry<In, T> {
    pub function: DurableFunction,
    pub kind: DurableFunctionType,
    pub input: In,
    pub answer: Result<T, TtsError>,
}

/// The entry a live run of `call` appends when the provider answered `answer`.
pub open spec fn entry_of<In, Req, T>(call: DurableCall<In, Req>, answer: Result<T, TtsError>) -> OplogEntry<In, T> {
    OplogEntry { function: call.function, kind: spec_function_type(call.function), input: call.input, answer }
}

/// Where one durable call stands.
pub enum CallPhase<In, Req> {
    /// Planned; the host has not yet said how the worker runs.
    Started(DurableCall<In, Req>),
    /// Live: waiting for the provider's answer to the call and input held.
    CallingProvider(DurableFunction, In),
    /// Live: waiting for the host to record the answer.
    Recording,
    /// Replaying: waiting for the recorded answer.
    Replaying,
    /// The answer has been handed to the caller.
    Completed,
}

/// What the host reports to a durable call.
pub enum CallEvent<T> {
    /// How the worker runs.
    ModeKnown(ExecutionMode),
    /// The provider's answer.
    ProviderAnswered(Result<T, TtsError>),
    /// The answer as the host gave it back after recording it.
    Recorded(Result<T, TtsError>),
    /// The recorded answer, read back on replay.
    Replayed(Result<T, TtsError>),
}

/// What the host is to do next for a durable call.
pub enum CallAction<In, Req, T> {
    /// Hand the provider this request, without recording the provider's own
    /// side effects.
    CallProvider(Req),
    /// Append this entry to the oplog.
    Record(OplogEntry<In, T>),
    /// Read back the answer recorded for this call.
    ReadRecorded(DurableFunction),
    /// Hand this answer to the caller.
    Deliver(Result<T, TtsError>),
}

/// Whether `event` is one that a call in `phase` waits for.
pub open spec fn expects<In, Req, T>(phase: CallPhase<In, Req>, event: CallEvent<T>) -> bool {
    match (phase, event) {
        (CallPhase::Started(_), CallEvent::ModeKnown(_)) => true,
        (CallPhase::CallingProvider(_, _), CallEvent::ProviderAnswered(_)) => true,
        (CallPhase::Recording, CallEvent::Recorded(_)) => true,
        (CallPhase::Replaying, CallEvent::Replayed(_)) => true,
        _ => false,
    }
}

/// The phase and the action that follow `event` in `phase`, for an expected event.
pub open spec fn spec_step<In, Req, T>(phase: CallPhase<In, Req>, event: CallEvent<T>) -> (
    CallPhase<In, Req>,
    CallAction<In, Req, T>,
)
    recommends
        expects(phase, event),
{
    match (phase, event) {
        (CallPhase::Started(call), CallEvent::ModeKnown(ExecutionMode::Live)) => (
            CallPhase::CallingProvider(call.function, call.input),
            CallAction::CallProvider(call.request),
        ),
        (CallPhase::Started(call), CallEvent::ModeKnown(ExecutionMode::Replay)) => (
            CallPhase::Replaying,
            CallAction::ReadRecorded(call.function),
        ),
        (CallPhase::CallingProvider(function, input), CallEvent::ProviderAnswered(answer)) => (
            CallPhase::Recording,
            CallAction::Record(
                OplogEntry { function, kind: spec_function_type(function), input, answer },
            ),
        ),
        (_, CallEvent::Recorded(answer)) => (CallPhase::Completed, CallAction::Deliver(answer)),
        (_, CallEvent::Replayed(answer)) => (CallPhase::Completed, CallAction::Deliver(answer)),
        _ => arbitrary(),
    }
}

/// Advances a durable call by one event. An event that the call does not
/// wait for in its phase is refused with `None`.
pub fn step<In, Req, T>(phase: CallPhase<In, Req>, event: CallEvent<T>) -> (next: Option<
    (CallPhase<In, Req>, CallAction<In, Req, T>),
>)
    ensures
        expects(phase, event) ==> next == Some(spec_step(phase, event)),
        !expects(phase, event) ==> next is None,
{
    match (phase, event) {
        (CallPhase::Started(call), CallEvent::ModeKnown(ExecutionMode::Live)) => Some(
            (
                CallPhase::CallingProvider(call.function, call.input),
                CallAction::CallProvider(call.request),
            ),
        ),
        (CallPhase::Started(call), CallEvent::ModeKnown(ExecutionMode::Replay)) => Some(
            (CallPhase::Replaying, CallAction::ReadRecorded(call.function)),
        ),
        (CallPhase::CallingProvider(function, input), CallEvent::ProviderAnswered(answer)) => {
            let kind = function.function_type();
            Some(
                (
                    CallPhase::Recording,
                    CallAction::Record(OplogEntry { function, kind, input, answer }),
                ),
            )
        },
        (CallPhase::Recording, CallEvent::Recorded(answer)) => Some(
            (CallPhase::Completed, CallAction::Deliver(answer)),
        ),
        (CallPhase::Replaying, CallEvent::Replayed(answer)) => Some(
            (CallPhase::Completed, CallAction::Deliver(answer)),
        ),
        _ => None,
    }
}

/// The actions a live run of `call` takes: the host says the worker is live,
/// the provider answers `answer`, and recording hands back `given_back`.
pub open spec fn live_run<In, Req, T>(
    call: DurableCall<In, Req>,
    answer: Result<T, TtsError>,
    given_back: Result<T, TtsError>,
) -> Seq<CallAction<In, Req, T>> {
    let (p1, a1) = spec_step(CallPhase::Started(call), CallEvent::<T>::ModeKnown(ExecutionMode::Live));
    let (p2, a2) = spec_step(p1, CallEvent::<T>::ProviderAnswered(answer));
    let (_, a3) = spec_step(p2, CallEvent::<T>::Recorded(given_back));
    seq![a1, a2, a3]
}

/// The actions a replayed run of `call` takes: the host says the worker
/// replays, and reading back gives `recorded`.
pub open spec fn replay_run<In, Req, T>(call: DurableCall<In, Req>, recorded: Result<T, TtsError>) -> Seq<
    CallAction<In, Req, T>,
> {
    let (p1, a1) = spec_step(CallPhase::Started(call), CallEvent::<T>::ModeKnown(ExecutionMode::Replay));
    let (_, a2) = spec_step(p1, CallEvent::<T>::Replayed(recorded));
    seq![a1, a2]
}

/// Whether an action calls the provider or records.
pub open spec fn touches_provider_or_oplog<In, Req, T>(action: CallAction<In, Req, T>) -> bool {
    action is CallProvider || action is Record
}

/// A live run takes each of its events as expected and ends completed; it
/// hands the provider the planned request, appends one entry, and hands the
/// caller what recording gave back. A replayed run takes each of its events
/// as expected and ends completed; it reads back the planned call's record
/// and hands that to the caller, without calling the provider or recording.
pub proof fn lemma_runs<In, Req, T>(
    call: DurableCall<In, Req>,
    answer: Result<T, TtsError>,
    given_back: Result<T, TtsError>,
    recorded: Result<T, TtsError>,
)
    ensures
        live_run(call, answer, given_back) == seq![
            CallAction::<In, Req, T>::CallProvider(call.request),
            CallAction::<In, Req, T>::Record(entry_of(call, answer)),
            CallAction::<In, Req, T>::Deliver(given_back),
        ],
        replay_run(call, recorded) == seq![
            CallAction::<In, Req, T>::ReadRecorded(call.function),
            CallAction::<In, Req, T>::Deliver(recorded),
        ],
        forall|k: int| 0 <= k < 2 ==> !touches_provider_or_oplog(#[trigger] replay_run(call, recorded)[k]),
{
    lemma_live_call(call, answer, given_back);
    lemma_replayed_call(call, recorded);
    let r = replay_run(call, recorded);
    assert(r[0] == CallAction::<In, Req, T>::ReadRecorded(call.function));
    assert(r[1] == CallAction::<In, Req, T>::Deliver(recorded));
}

/// The oplog that live runs of `calls` append, in order, when the i-th
/// provider call answers `answers[i]`: one entry per run.
pub open spec fn live_oplog<In, Req, T>(
    calls: Seq<DurableCall<In, Req>>,
    answers: Seq<Result<T, TtsError>>,
) -> Seq<OplogEntry<In, T>> {
    Seq::new(calls.len(), |i: int| live_run(calls[i], answers[i], answers[i])[1]->Record_0)
}

/// What live runs of `calls` hand their callers, in order, when the i-th
/// provider call answers `answers[i]` and recording hands each answer back
/// unchanged.
pub open spec fn live_deliveries<In, Req, T>(
    calls: Seq<DurableCall<In, Req>>,
    answers: Seq<Result<T, TtsError>>,
) -> Seq<Result<T, TtsError>> {
    Seq::new(calls.len(), |i: int| live_run(calls[i], answers[i], answers[i])[2]->Deliver_0)
}

/// What replayed runs of `calls` hand their callers, in order, when the i-th
/// run reads back the i-th entry of `oplog`.
pub open spec fn replay_deliveries<In, Req, T>(
    calls: Seq<DurableCall<In, Req>>,
    oplog: Seq<OplogEntry<In, T>>,
) -> Seq<Result<T, TtsError>> {
    Seq::new(calls.len(), |i: int| replay_run(calls[i], oplog[i].answer)[1]->Deliver_0)
}

/// A sequence of durable calls replays as it ran. Run live, the calls append
/// one entry each, in order (the planned call, its kind, the planned input,
/// the provider's answer), and hand their callers the provider's answers,
/// in order. Replayed against that oplog, the i-th call asks for the record
/// of its own planned call, which is the i-th entry's, and hands its caller
/// the i-th answer: the same answers in the same order. No replayed call
/// calls the provider or records.
pub proof fn lemma_replayed_session<In, Req, T>(
    calls: Seq<DurableCall<In, Req>>,
    answers: Seq<Result<T, TtsError>>,
)
    requires
        calls.len() == answers.len(),
    ensures
        live_oplog(calls, answers).len() == calls.len(),
        forall|i: int| 0 <= i < calls.len() ==> #[trigger] live_oplog(calls, answers)[i] == entry_of(calls[i], answers[i]),
        live_deliveries(calls, answers) == answers,
        replay_deliveries(calls, live_oplog(calls, answers)) == answers,
        forall|i: int|
            0 <= i < calls.len() ==> #[trigger] replay_run(calls[i], live_oplog(calls, answers)[i].answer)[0]
                == CallAction::<In, Req, T>::ReadRecorded(live_oplog(calls, answers)[i].function),
        forall|i: int, k: int|
            0 <= i < calls.len() && 0 <= k < 2 ==> !touches_provider_or_oplog(
                #[trigger] replay_run(calls[i], live_oplog(calls, answers)[i].answer)[k],
            ),
{
    let oplog = live_oplog(calls, answers);
    assert forall|i: int| 0 <= i < calls.len() implies {
        &&& #[trigger] oplog[i] == entry_of(calls[i], answers[i])
        &&& live_run(calls[i], answers[i], answers[i])[2]->Deliver_0 == answers[i]
        &&& replay_run(calls[i], oplog[i].answer)[1]->Deliver_0 == answers[i]
        &&& replay_run(calls[i], oplog[i].answer)[0] == CallAction::<In, Req, T>::ReadRecorded(oplog[i].function)
        &&& forall|k: int| 0 <= k < 2 ==> !touches_provider_or_oplog(#[trigger] replay_run(calls[i], oplog[i].answer)[k])
    } by {
        lemma_runs(calls[i], answers[i], answers[i], answers[i]);
    }
    assert(live_deliveries(calls, answers) =~= answers);
    assert(replay_deliveries(calls, oplog) =~= answers);
}

/// A live durable call unfolds as: hand the provider the planned request,
/// append one entry (the planned call, its kind, the planned input and the
/// provider's answer), then hand the caller what the host gave back from
/// recording.
pub proof fn lemma_live_call<In, Req, T>(
    call: DurableCall<In, Req>,
    answer: Result<T, TtsError>,
    given_back: Result<T, TtsError>,
)
    ensures
        ({
            let (p1, a1) = spec_step(CallPhase::Started(call), CallEvent::<T>::ModeKnown(ExecutionMode::Live));
            let (p2, a2) = spec_step(p1, CallEvent::<T>::ProviderAnswered(answer));
            let (p3, a3) = spec_step(p2, CallEvent::<T>::Recorded(given_back));
            &&& expects(CallPhase::Started(call), CallEvent::<T>::ModeKnown(ExecutionMode::Live))
            &&& expects(p1, CallEvent::<T>::ProviderAnswered(answer))
            &&& expects(p2, CallEvent::<T>::Recorded(given_back))
            &&& a1 == CallAction::<In, Req, T>::CallProvider(call.request)
            &&& a2 == CallAction::<In, Req, T>::Record(entry_of(call, answer))
            &&& a3 == CallAction::<In, Req, T>::Deliver(given_back)
            &&& p3 is Completed
        }),
{
}

/// A replayed durable call unfolds as: read back the answer recorded for the
/// planned call, hand it to the caller. The provider is not called and
/// nothing is recorded.
pub proof fn lemma_replayed_call<In, Req, T>(call: DurableCall<In, Req>, recorded: Result<T, TtsError>)
    ensures
        ({
            let (p1, a1) = spec_step(CallPhase::Started(call), CallEvent::<T>::ModeKnown(ExecutionMode::Replay));
            let (p2, a2) = spec_step(p1, CallEvent::<T>::Replayed(recorded));
            &&& expects(CallPhase::Started(call), CallEvent::<T>::ModeKnown(ExecutionMode::Replay))
            &&& expects(p1, CallEvent::<T>::Replayed(recorded))
            &&& a1 == CallAction::<In, Req, T>::ReadRecorded(call.function)
            &&& a2 == CallAction::<In, Req, T>::Deliver(recorded)
            &&& p2 is Completed
        }),
{
}

/// Replaying a durable call hands its caller what the live call handed its
/// caller, when the host gives an answer back unchanged after recording it
/// and replays the answer it recorded.
pub proof fn lemma_replay_delivers_what_live_delivered<In, Req, T>(
    call: DurableCall<In, Req>,
    answer: Result<T, TtsError>,
)
    ensures
        ({
            let (p1, _) = spec_step(CallPhase::Started(call), CallEvent::<T>::ModeKnown(ExecutionMode::Live));
            let (p2, recording) = spec_step(p1, CallEvent::<T>::ProviderAnswered(answer));
            let recorded = recording->Record_0.answer;
            let (_, live_delivery) = spec_step(p2, CallEvent::<T>::Recorded(recorded));
            let (q1, _) = spec_step(CallPhase::Started(call), CallEvent::<T>::ModeKnown(ExecutionMode::Replay));
            let (_, replay_delivery) = spec_step(q1, CallEvent::<T>::Replayed(recorded));
            &&& live_delivery == CallAction::<In, Req, T>::Deliver(answer)
            &&& replay_delivery == live_delivery
        }),
{
}

/// Once a durable call has handed its answer to its caller, it takes no
/// further event.
pub proof fn lemma_completed_call_is_final<In, Req, T>(event: CallEvent<T>)
    ensures
        !expects(CallPhase::<In, Req>::Completed, event),
{
}

/// Distinct calls are recorded under distinct names, so a replayed call
/// never takes another call's record for its own.
pub proof fn lemma_function_names_distinct(f: DurableFunction, g: DurableFunction)
    requires
        f != g,
    ensures
        spec_function_name(f) != spec_function_name(g),
{
    reveal_strlit("list_voices");
    reveal_strlit("get_voice");
    reveal_strlit("search_voices");
    reveal_strlit("list_languages");
    reveal_strlit("synthesize");
    reveal_strlit("synthesize_batch");
    reveal_strlit("get_timing_marks");
    reveal_strlit("validate_input");
    reveal_strlit("stream_send_text");
    reveal_strlit("stream_finish");
    reveal_strlit("stream_receive_chunk");
    reveal_strlit("voice_conversion_send_audio");
    reveal_strlit("voice_conversion_receive");
    reveal_strlit("voice_conversion_finish");
    reveal_strlit("create_stream");
    reveal_strlit("create_voice_conversion_stream");
    reveal_strlit("create_voice_clone");
    reveal_strlit("design_voice");
    reveal_strlit("convert_voice");
    reveal_strlit("generate_sound_effect");
    reveal_strlit("synthesize_long_form");
    let (a, b) = (spec_function_name(f), spec_function_name(g));
    assert(a.len() != b.len() || a[0] != b[0] || a[1] != b[1]);
}

} // verus!
