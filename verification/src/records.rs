//! The requests handed to a provider, and the inputs that a durable call
//! records beside the provider's answer.
use crate::guest::{StreamRequest, SynthesisRequest};
use crate::types::{
    duplicate_options, AudioSample, SynthesisOptions, TextInput, VoiceDesignParams, VoiceFilter,
};
use vstd::prelude::*;

verus! {

/// Recorded input of a voice listing.
#[derive(Clone, Debug, PartialEq, Eq)]
pub struct VoicesInput {
    pub filter: Option<VoiceFilter>,
}

/// Recorded input of a voice lookup.
#[derive(Clone, Debug, PartialEq, Eq)]
pub struct VoiceInput {
    pub voice_id: String,
}

/// Recorded input of a voice search.
#[derive(Clone, Debug, PartialEq, Eq)]
pub struct SearchVoiceInput {
    pub query: String,
    pub filter: Option<VoiceFilter>,
}

/// Recorded input of one synthesis.
#[derive(Clone, Debug, PartialEq, Eq)]
pub struct SynthesizeInput {
    pub input: TextInput,
    pub voice_id: String,
    pub options: Option<SynthesisOptions>,
}

/// Recorded input of a batch of syntheses.
#[derive(Clone, Debug, PartialEq, Eq)]
pub struct BatchInput {
    pub requests: Vec<SynthesizeInput>,
}

/// Recorded input of a timing or validation query.
#[derive(Clone, Debug, PartialEq, Eq)]
pub struct TimingInput {
    pub input: TextInput,
    pub voice_id: String,
}

/// Recorded input (and, for a created stream, recorded answer) of a stream creation.
#[derive(Clone, Debug, PartialEq, Eq)]
pub struct StreamInput {
    pub voice_id: String,
    pub options: Option<SynthesisOptions>,
}

/// Recorded input of a call that takes none.
#[derive(Clone, Debug, PartialEq, Eq)]
pub struct NoInput {}

/// Recorded input of a voice clone; also the provider's arguments.
#[derive(Clone, Debug, PartialEq, Eq)]
pub struct VoiceCloneInput {
    pub name: String,
    pub audio_samples: Vec<AudioSample>,
    pub description: Option<String>,
}

/// Recorded input of a voice design; also the provider's arguments.
#[derive(Clone, Debug, PartialEq, Eq)]
pub struct VoiceDesignInput {
    pub name: String,
    pub characteristics: VoiceDesignParams,
}

/// Recorded input of a voice conversion; also the provider's arguments.
#[derive(Clone, Debug, PartialEq, Eq)]
pub struct ConvertVoiceInput {
    pub input_audio: Vec<u8>,
    pub voice_id: String,
    pub preserve_timing: Option<bool>,
}

/// Recorded input of a sound effect; also the provider's arguments. The
/// duration and the style influence are bit patterns of `f32`s.
#[derive(Clone, Debug, PartialEq, Eq)]
pub struct SoundEffectInput {
    pub description: String,
    pub duration_seconds: Option<u32>,
    pub style_influence: Option<u32>,
}

/// Recorded input of a long-form synthesis; also the provider's arguments.
#[derive(Clone, Debug, PartialEq, Eq)]
pub struct LongFormInput {
    pub content: String,
    pub voice_id: String,
    pub output_location: String,
    pub chapter_breaks: Option<Vec<u32>>,
}

/// Recorded input of audio sent to a voice conversion stream.
#[derive(Clone, Debug, PartialEq, Eq)]
pub struct AudioInput {
    pub audio_data: Vec<u8>,
}

/// The request of one synthesis of `input` in voice `voice_id` with `options`.
pub fn synthesis_request(input: TextInput, voice_id: String, options: Option<SynthesisOptions>) -> (request: SynthesisRequest)
    ensures
        request == (SynthesisRequest { input, voice_id, options }),
{
    SynthesisRequest { input, voice_id, options }
}

/// The request of a stream in voice `voice_id` with `options`.
pub fn stream_request(voice_id: String, options: Option<SynthesisOptions>) -> (request: StreamRequest)
    ensures
        request == (StreamRequest { voice_id, options }),
{
    StreamRequest { voice_id, options }
}

/// One request per text of `inputs`, in order, each with the voice
/// `voice_id` and the options `options`.
pub open spec fn spec_batch_requests(
    inputs: Seq<TextInput>,
    voice_id: String,
    options: Option<SynthesisOptions>,
) -> Seq<SynthesisRequest> {
    Seq::new(inputs.len(), |i: int| SynthesisRequest { input: inputs[i], voice_id, options })
}

/// One request per input, in order, each with the voice `voice_id` and the
/// options `options`.
pub fn batch_requests(
    inputs: Vec<TextInput>,
    voice_id: &String,
    options: &Option<SynthesisOptions>,
) -> (requests: Vec<SynthesisRequest>)
    ensures
        requests@ == spec_batch_requests(inputs@, *voice_id, *options),
        requests@.len() == inputs@.len(),
        forall|i: int|
            0 <= i < inputs@.len() ==> #[trigger] requests@[i] == (SynthesisRequest {
                input: inputs@[i],
                voice_id: *voice_id,
                options: *options,
            }),
{
    let mut requests: Vec<SynthesisRequest> = Vec::new();
    for input in it: inputs
        invariant
            requests@.len() == it.index(),
            it.seq() == inputs@,
            forall|i: int|
                0 <= i < requests@.len() ==> #[trigger] requests@[i] == (SynthesisRequest {
                    input: inputs@[i],
                    voice_id: *voice_id,
                    options: *options,
                }),
    {
        requests.push(
            SynthesisRequest {
                input,
                voice_id: voice_id.clone(),
                options: duplicate_options(options),
            },
        );
    }
    assert(requests@ =~= spec_batch_requests(inputs@, *voice_id, *options));
    requests
}

/// One recorded synthesis per text of `inputs`, in order, each with the
/// voice `voice_id` and the options `options`.
pub open spec fn spec_batch_records(
    inputs: Seq<TextInput>,
    voice_id: String,
    options: Option<SynthesisOptions>,
) -> Seq<SynthesizeInput> {
    Seq::new(inputs.len(), |i: int| SynthesizeInput { input: inputs[i], voice_id, options })
}

/// The requests that recorded syntheses stand for: one per record, in order,
/// with the record's text, voice and options.
pub open spec fn spec_requests_of_records(records: Seq<SynthesizeInput>) -> Seq<SynthesisRequest> {
    Seq::new(
        records.len(),
        |i: int|
            SynthesisRequest {
                input: records[i].input,
                voice_id: records[i].voice_id,
                options: records[i].options,
            },
    )
}

/// One recorded synthesis per input, in order, each with the voice
/// `voice_id` and the options `options`.
pub fn batch_records(
    inputs: Vec<TextInput>,
    voice_id: &String,
    options: &Option<SynthesisOptions>,
) -> (records: Vec<SynthesizeInput>)
    ensures
        records@ == spec_batch_records(inputs@, *voice_id, *options),
        records@.len() == inputs@.len(),
        forall|i: int|
            0 <= i < inputs@.len() ==> #[trigger] records@[i] == (SynthesizeInput {
                input: inputs@[i],
                voice_id: *voice_id,
                options: *options,
            }),
{
    let mut records: Vec<SynthesizeInput> = Vec::new();
    for input in it: inputs
        invariant
            records@.len() == it.index(),
            it.seq() == inputs@,
            forall|i: int|
                0 <= i < records@.len() ==> #[trigger] records@[i] == (SynthesizeInput {
                    input: inputs@[i],
                    voice_id: *voice_id,
                    options: *options,
                }),
    {
        records.push(
            SynthesizeInput {
                input,
                voice_id: voice_id.clone(),
                options: duplicate_options(options),
            },
        );
    }
    assert(records@ =~= spec_batch_records(inputs@, *voice_id, *options));
    records
}

/// The requests that recorded syntheses stand for: one per record, in order,
/// with the record's text, voice and options.
pub fn requests_of_records(records: &Vec<SynthesizeInput>) -> (requests: Vec<SynthesisRequest>)
    ensures
        requests@ == spec_requests_of_records(records@),
        requests@.len() == records@.len(),
        forall|i: int|
            0 <= i < records@.len() ==> #[trigger] requests@[i] == (SynthesisRequest {
                input: records@[i].input,
                voice_id: records@[i].voice_id,
                options: records@[i].options,
            }),
{
    let mut requests: Vec<SynthesisRequest> = Vec::new();
    let mut k: usize = 0;
    while k < records.len()
        invariant
            k <= records@.len(),
            requests@.len() == k,
            forall|i: int|
                0 <= i < k ==> #[trigger] requests@[i] == (SynthesisRequest {
                    input: records@[i].input,
                    voice_id: records@[i].voice_id,
                    options: records@[i].options,
                }),
        decreases records@.len() - k,
    {
        let record = &records[k];
        requests.push(
            SynthesisRequest {
                input: record.input.duplicate(),
                voice_id: record.voice_id.clone(),
                options: duplicate_options(&record.options),
            },
        );
        k = k + 1;
    }
    assert(requests@ =~= spec_requests_of_records(records@));
    requests
}

/// A batch holds one request per text, in order: the i-th request is the
/// i-th text with the voice and the options.
pub proof fn lemma_batch_requests_one_per_text(
    inputs: Seq<TextInput>,
    voice_id: String,
    options: Option<SynthesisOptions>,
)
    ensures
        spec_batch_requests(inputs, voice_id, options).len() == inputs.len(),
        forall|i: int|
            0 <= i < inputs.len() ==> #[trigger] spec_batch_requests(inputs, voice_id, options)[i]
                == (SynthesisRequest { input: inputs[i], voice_id, options }),
{
}

/// A batch records one synthesis per text, in order: the i-th record is the
/// i-th text with the voice and the options.
pub proof fn lemma_batch_records_one_per_text(
    inputs: Seq<TextInput>,
    voice_id: String,
    options: Option<SynthesisOptions>,
)
    ensures
        spec_batch_records(inputs, voice_id, options).len() == inputs.len(),
        forall|i: int|
            0 <= i < inputs.len() ==> #[trigger] spec_batch_records(inputs, voice_id, options)[i]
                == (SynthesizeInput { input: inputs[i], voice_id, options }),
{
}

} // verus!
