//! The plan of each durable call of the interface: the call it is recorded
//! as, the input recorded beside its answer, and the request its provider is
//! handed when the worker runs live.
//!
//! A recorded input holds the caller's arguments (the voice by its
//! identifier); the request holds the same arguments, as the provider takes
//! them. Recording and the provider call each need their own copy.
use crate::durability::{DurableCall, DurableFunction};
use crate::guest::{StreamRequest, SynthesisRequest};
use crate::records::{
    batch_records, requests_of_records, spec_batch_records, spec_batch_requests,
    spec_requests_of_records, AudioInput, BatchInput, ConvertVoiceInput, LongFormInput, NoInput,
    SearchVoiceInput, SoundEffectInput, StreamInput, SynthesizeInput, TimingInput,
    VoiceCloneInput, VoiceDesignInput, VoiceInput, VoicesInput,
};
use crate::types::{
    duplicate_bytes, duplicate_filter, duplicate_option_numbers, duplicate_option_string,
    duplicate_options, duplicate_samples, samples_alike, AudioSample, SynthesisOptions,
    TextInput, VoiceDesignParams, VoiceFilter,
};
use crate::voices::VoiceResource;
use vstd::prelude::*;

verus! {

pub open spec fn list_voices_planned(
    c: DurableCall<VoicesInput, Option<VoiceFilter>>,
    filter: Option<VoiceFilter>,
) -> bool {
    &&& c.function == DurableFunction::ListVoices
    &&& c.input == (VoicesInput { filter })
    &&& c.request == filter
}

/// The plan of a durable voice listing.
pub fn list_voices_call(filter: Option<VoiceFilter>) -> (c: DurableCall<VoicesInput, Option<VoiceFilter>>)
    ensures
        list_voices_planned(c, filter),
{
    let recorded = duplicate_filter(&filter);
    DurableCall { function: DurableFunction::ListVoices, input: VoicesInput { filter: recorded }, request: filter }
}

pub open spec fn get_voice_planned(c: DurableCall<VoiceInput, String>, voice_id: String) -> bool {
    &&& c.function == DurableFunction::GetVoice
    &&& c.input == (VoiceInput { voice_id })
    &&& c.request == voice_id
}

/// The plan of a durable voice lookup.
pub fn get_voice_call(voice_id: String) -> (c: DurableCall<VoiceInput, String>)
    ensures
        get_voice_planned(c, voice_id),
{
    let recorded = voice_id.clone();
    DurableCall { function: DurableFunction::GetVoice, input: VoiceInput { voice_id: recorded }, request: voice_id }
}

pub open spec fn search_voices_planned(
    c: DurableCall<SearchVoiceInput, SearchVoiceInput>,
    query: String,
    filter: Option<VoiceFilter>,
) -> bool {
    &&& c.function == DurableFunction::SearchVoices
    &&& c.input == (SearchVoiceInput { query, filter })
    &&& c.request == (SearchVoiceInput { query, filter })
}

/// The plan of a durable voice search.
pub fn search_voices_call(query: String, filter: Option<VoiceFilter>) -> (c: DurableCall<
    SearchVoiceInput,
    SearchVoiceInput,
>)
    ensures
        search_voices_planned(c, query, filter),
{
    let input = SearchVoiceInput { query: query.clone(), filter: duplicate_filter(&filter) };
    DurableCall { function: DurableFunction::SearchVoices, input, request: SearchVoiceInput { query, filter } }
}

pub open spec fn no_input_planned(c: DurableCall<NoInput, NoInput>, function: DurableFunction) -> bool {
    &&& c.function == function
    &&& c.input == (NoInput {})
    &&& c.request == (NoInput {})
}

/// The plan of a durable language listing.
pub fn list_languages_call() -> (c: DurableCall<NoInput, NoInput>)
    ensures
        no_input_planned(c, DurableFunction::ListLanguages),
{
    DurableCall { function: DurableFunction::ListLanguages, input: NoInput {}, request: NoInput {} }
}

pub open spec fn synthesize_planned(
    c: DurableCall<SynthesizeInput, SynthesisRequest>,
    input: TextInput,
    voice_id: String,
    options: Option<SynthesisOptions>,
) -> bool {
    &&& c.function == DurableFunction::Synthesize
    &&& c.input == (SynthesizeInput { input, voice_id, options })
    &&& c.request == (SynthesisRequest { input, voice_id, options })
}

/// The plan of a durable synthesis of `input` in `voice`.
pub fn synthesize_call(input: TextInput, voice: &VoiceResource, options: Option<SynthesisOptions>) -> (c:
    DurableCall<SynthesizeInput, SynthesisRequest>)
    ensures
        synthesize_planned(c, input, voice@.id, options),
{
    let recorded = SynthesizeInput {
        input: input.duplicate(),
        voice_id: voice.get_id(),
        options: duplicate_options(&options),
    };
    DurableCall {
        function: DurableFunction::Synthesize,
        input: recorded,
        request: SynthesisRequest { input, voice_id: voice.get_id(), options },
    }
}

pub open spec fn synthesize_batch_planned(
    c: DurableCall<BatchInput, Vec<SynthesisRequest>>,
    inputs: Seq<TextInput>,
    voice_id: String,
    options: Option<SynthesisOptions>,
) -> bool {
    &&& c.function == DurableFunction::SynthesizeBatch
    &&& c.input.requests@ == spec_batch_records(inputs, voice_id, options)
    &&& c.request@ == spec_batch_requests(inputs, voice_id, options)
}

/// The requests that the records of a batch stand for are the requests of
/// the batch itself.
pub proof fn lemma_batch_records_stand_for_batch_requests(
    inputs: Seq<TextInput>,
    voice_id: String,
    options: Option<SynthesisOptions>,
)
    ensures
        spec_requests_of_records(spec_batch_records(inputs, voice_id, options))
            == spec_batch_requests(inputs, voice_id, options),
{
    assert(spec_requests_of_records(spec_batch_records(inputs, voice_id, options))
        =~= spec_batch_requests(inputs, voice_id, options));
}

/// The plan of a durable batch synthesis of `inputs` in `voice`: one record
/// and one request per input, in order.
pub fn synthesize_batch_call(inputs: Vec<TextInput>, voice: &VoiceResource, options: Option<SynthesisOptions>) -> (c:
    DurableCall<BatchInput, Vec<SynthesisRequest>>)
    ensures
        synthesize_batch_planned(c, inputs@, voice@.id, options),
        c.input.requests@.len() == inputs@.len(),
        c.request@.len() == inputs@.len(),
        forall|i: int|
            0 <= i < inputs@.len() ==> #[trigger] c.input.requests@[i] == (SynthesizeInput {
                input: inputs@[i],
                voice_id: voice@.id,
                options,
            }),
        forall|i: int|
            0 <= i < inputs@.len() ==> #[trigger] c.request@[i] == (SynthesisRequest {
                input: inputs@[i],
                voice_id: voice@.id,
                options,
            }),
{
    let records = batch_records(inputs, &voice.get_id(), &options);
    let requests = requests_of_records(&records);
    proof {
        lemma_batch_records_stand_for_batch_requests(inputs@, voice@.id, options);
    }
    DurableCall {
        function: DurableFunction::SynthesizeBatch,
        input: BatchInput { requests: records },
        request: requests,
    }
}

pub open spec fn timing_planned(
    c: DurableCall<TimingInput, TimingInput>,
    function: DurableFunction,
    input: TextInput,
    voice_id: String,
) -> bool {
    &&& c.function == function
    &&& c.input == (TimingInput { input, voice_id })
    &&& c.request == (TimingInput { input, voice_id })
}

/// The plan of a durable timing query.
pub fn get_timing_marks_call(input: TextInput, voice: &VoiceResource) -> (c: DurableCall<
    TimingInput,
    TimingInput,
>)
    ensures
        timing_planned(c, DurableFunction::GetTimingMarks, input, voice@.id),
{
    let recorded = TimingInput { input: input.duplicate(), voice_id: voice.get_id() };
    DurableCall {
        function: DurableFunction::GetTimingMarks,
        input: recorded,
        request: TimingInput { input, voice_id: voice.get_id() },
    }
}

/// The plan of a durable validation.
pub fn validate_input_call(input: TextInput, voice: &VoiceResource) -> (c: DurableCall<
    TimingInput,
    TimingInput,
>)
    ensures
        timing_planned(c, DurableFunction::ValidateInput, input, voice@.id),
{
    let recorded = TimingInput { input: input.duplicate(), voice_id: voice.get_id() };
    DurableCall {
        function: DurableFunction::ValidateInput,
        input: recorded,
        request: TimingInput { input, voice_id: voice.get_id() },
    }
}

pub open spec fn stream_creation_planned(
    c: DurableCall<StreamInput, StreamRequest>,
    function: DurableFunction,
    voice_id: String,
    options: Option<SynthesisOptions>,
) -> bool {
    &&& c.function == function
    &&& c.input == (StreamInput { voice_id, options })
    &&& c.request == (StreamRequest { voice_id, options })
}

/// The plan of a durable synthesis stream creation in `voice`.
pub fn create_stream_call(voice: &VoiceResource, options: Option<SynthesisOptions>) -> (c: DurableCall<
    StreamInput,
    StreamRequest,
>)
    ensures
        stream_creation_planned(c, DurableFunction::CreateStream, voice@.id, options),
{
    let recorded = StreamInput { voice_id: voice.get_id(), options: duplicate_options(&options) };
    DurableCall {
        function: DurableFunction::CreateStream,
        input: recorded,
        request: StreamRequest { voice_id: voice.get_id(), options },
    }
}

/// The plan of a durable voice conversion stream creation to `target_voice`.
pub fn create_voice_conversion_stream_call(target_voice: &VoiceResource, options: Option<SynthesisOptions>) -> (c:
    DurableCall<StreamInput, StreamRequest>)
    ensures
        stream_creation_planned(c, DurableFunction::CreateVoiceConversionStream, target_voice@.id, options),
{
    let recorded = StreamInput { voice_id: target_voice.get_id(), options: duplicate_options(&options) };
    DurableCall {
        function: DurableFunction::CreateVoiceConversionStream,
        input: recorded,
        request: StreamRequest { voice_id: target_voice.get_id(), options },
    }
}

pub open spec fn voice_clone_planned(
    c: DurableCall<VoiceCloneInput, VoiceCloneInput>,
    name: String,
    audio_samples: Vec<AudioSample>,
    description: Option<String>,
) -> bool {
    &&& c.function == DurableFunction::CreateVoiceClone
    &&& c.input.name == name
    &&& samples_alike(c.input.audio_samples@, audio_samples@)
    &&& c.input.description == description
    &&& c.request == (VoiceCloneInput { name, audio_samples, description })
}

/// The plan of a durable voice clone.
pub fn create_voice_clone_call(name: String, audio_samples: Vec<AudioSample>, description: Option<String>) -> (c:
    DurableCall<VoiceCloneInput, VoiceCloneInput>)
    ensures
        voice_clone_planned(c, name, audio_samples, description),
{
    let recorded = VoiceCloneInput {
        name: name.clone(),
        audio_samples: duplicate_samples(&audio_samples),
        description: duplicate_option_string(&description),
    };
    DurableCall {
        function: DurableFunction::CreateVoiceClone,
        input: recorded,
        request: VoiceCloneInput { name, audio_samples, description },
    }
}

pub open spec fn voice_design_planned(
    c: DurableCall<VoiceDesignInput, VoiceDesignInput>,
    name: String,
    characteristics: VoiceDesignParams,
) -> bool {
    let recorded = c.input.characteristics;
    &&& c.function == DurableFunction::DesignVoice
    &&& c.input.name == name
    &&& recorded.gender == characteristics.gender
    &&& recorded.age_category == characteristics.age_category
    &&& recorded.accent == characteristics.accent
    &&& recorded.personality_traits@ == characteristics.personality_traits@
    &&& recorded.reference_voice == characteristics.reference_voice
    &&& c.request == (VoiceDesignInput { name, characteristics })
}

/// The plan of a durable voice design.
pub fn design_voice_call(name: String, characteristics: VoiceDesignParams) -> (c: DurableCall<
    VoiceDesignInput,
    VoiceDesignInput,
>)
    ensures
        voice_design_planned(c, name, characteristics),
{
    let recorded = VoiceDesignInput { name: name.clone(), characteristics: characteristics.duplicate() };
    DurableCall {
        function: DurableFunction::DesignVoice,
        input: recorded,
        request: VoiceDesignInput { name, characteristics },
    }
}

pub open spec fn convert_voice_planned(
    c: DurableCall<ConvertVoiceInput, ConvertVoiceInput>,
    input_audio: Vec<u8>,
    voice_id: String,
    preserve_timing: Option<bool>,
) -> bool {
    &&& c.function == DurableFunction::ConvertVoice
    &&& c.input.input_audio@ == input_audio@
    &&& c.input.voice_id == voice_id
    &&& c.input.preserve_timing == preserve_timing
    &&& c.request == (ConvertVoiceInput { input_audio, voice_id, preserve_timing })
}

/// The plan of a durable voice conversion to `target_voice`.
pub fn convert_voice_call(input_audio: Vec<u8>, target_voice: &VoiceResource, preserve_timing: Option<bool>) -> (c:
    DurableCall<ConvertVoiceInput, ConvertVoiceInput>)
    ensures
        convert_voice_planned(c, input_audio, target_voice@.id, preserve_timing),
{
    let recorded = ConvertVoiceInput {
        input_audio: duplicate_bytes(&input_audio),
        voice_id: target_voice.get_id(),
        preserve_timing,
    };
    DurableCall {
        function: DurableFunction::ConvertVoice,
        input: recorded,
        request: ConvertVoiceInput { input_audio, voice_id: target_voice.get_id(), preserve_timing },
    }
}

pub open spec fn sound_effect_planned(
    c: DurableCall<SoundEffectInput, SoundEffectInput>,
    description: String,
    duration_seconds: Option<u32>,
    style_influence: Option<u32>,
) -> bool {
    &&& c.function == DurableFunction::GenerateSoundEffect
    &&& c.input == (SoundEffectInput { description, duration_seconds, style_influence })
    &&& c.request == (SoundEffectInput { description, duration_seconds, style_influence })
}

/// The plan of a durable sound effect; the duration and the style influence
/// are bit patterns of `f32`s.
pub fn generate_sound_effect_call(
    description: String,
    duration_seconds: Option<u32>,
    style_influence: Option<u32>,
) -> (c: DurableCall<SoundEffectInput, SoundEffectInput>)
    ensures
        sound_effect_planned(c, description, duration_seconds, style_influence),
{
    let recorded = SoundEffectInput { description: description.clone(), duration_seconds, style_influence };
    DurableCall {
        function: DurableFunction::GenerateSoundEffect,
        input: recorded,
        request: SoundEffectInput { description, duration_seconds, style_influence },
    }
}

pub open spec fn long_form_planned(
    c: DurableCall<LongFormInput, LongFormInput>,
    content: String,
    voice_id: String,
    output_location: String,
    chapter_breaks: Option<Vec<u32>>,
) -> bool {
    &&& c.function == DurableFunction::SynthesizeLongForm
    &&& c.input.content == content
    &&& c.input.voice_id == voice_id
    &&& c.input.output_location == output_location
    &&& (c.input.chapter_breaks is Some <==> chapter_breaks is Some)
    &&& (chapter_breaks matches Some(b) ==> c.input.chapter_breaks->0@ == b@)
    &&& c.request == (LongFormInput { content, voice_id, output_location, chapter_breaks })
}

/// The plan of a durable long-form synthesis in `voice`.
pub fn synthesize_long_form_call(
    content: String,
    voice: &VoiceResource,
    output_location: String,
    chapter_breaks: Option<Vec<u32>>,
) -> (c: DurableCall<LongFormInput, LongFormInput>)
    ensures
        long_form_planned(c, content, voice@.id, output_location, chapter_breaks),
{
    let recorded = LongFormInput {
        content: content.clone(),
        voice_id: voice.get_id(),
        output_location: output_location.clone(),
        chapter_breaks: duplicate_option_numbers(&chapter_breaks),
    };
    DurableCall {
        function: DurableFunction::SynthesizeLongForm,
        input: recorded,
        request: LongFormInput { content, voice_id: voice.get_id(), output_location, chapter_breaks },
    }
}

pub open spec fn send_text_planned(c: DurableCall<TextInput, TextInput>, input: TextInput) -> bool {
    &&& c.function == DurableFunction::StreamSendText
    &&& c.input == input
    &&& c.request == input
}

/// The plan of text sent durably to a synthesis stream.
pub fn stream_send_text_call(input: TextInput) -> (c: DurableCall<TextInput, TextInput>)
    ensures
        send_text_planned(c, input),
{
    DurableCall { function: DurableFunction::StreamSendText, input: input.duplicate(), request: input }
}

/// The plan of a durable end of text to a synthesis stream.
pub fn stream_finish_call() -> (c: DurableCall<NoInput, NoInput>)
    ensures
        no_input_planned(c, DurableFunction::StreamFinish),
{
    DurableCall { function: DurableFunction::StreamFinish, input: NoInput {}, request: NoInput {} }
}

/// The plan of a durable receipt of a synthesis stream's next chunk.
pub fn stream_receive_chunk_call() -> (c: DurableCall<NoInput, NoInput>)
    ensures
        no_input_planned(c, DurableFunction::StreamReceiveChunk),
{
    DurableCall { function: DurableFunction::StreamReceiveChunk, input: NoInput {}, request: NoInput {} }
}

pub open spec fn send_audio_planned(c: DurableCall<AudioInput, AudioInput>, audio_data: Vec<u8>) -> bool {
    &&& c.function == DurableFunction::VoiceConversionSendAudio
    &&& c.input.audio_data@ == audio_data@
    &&& c.request == (AudioInput { audio_data })
}

/// The plan of audio sent durably to a voice conversion stream.
pub fn voice_conversion_send_audio_call(audio_data: Vec<u8>) -> (c: DurableCall<AudioInput, AudioInput>)
    ensures
        send_audio_planned(c, audio_data),
{
    let recorded = AudioInput { audio_data: duplicate_bytes(&audio_data) };
    DurableCall {
        function: DurableFunction::VoiceConversionSendAudio,
        input: recorded,
        request: AudioInput { audio_data },
    }
}

/// The plan of a durable receipt of a voice conversion stream's next chunk.
pub fn voice_conversion_receive_call() -> (c: DurableCall<NoInput, NoInput>)
    ensures
        no_input_planned(c, DurableFunction::VoiceConversionReceive),
{
    DurableCall { function: DurableFunction::VoiceConversionReceive, input: NoInput {}, request: NoInput {} }
}

/// The plan of a durable end of audio to a voice conversion stream.
pub fn voice_conversion_finish_call() -> (c: DurableCall<NoInput, NoInput>)
    ensures
        no_input_planned(c, DurableFunction::VoiceConversionFinish),
{
    DurableCall { function: DurableFunction::VoiceConversionFinish, input: NoInput {}, request: NoInput {} }
}

} // verus!
