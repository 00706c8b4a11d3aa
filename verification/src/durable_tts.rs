//! The text-to-speech interface served on top of a provider.
//!
//! Each call hands the provider exactly the caller's arguments (the voice by
//! its identifier), and turns the provider's answer into what the caller
//! receives. Under durable execution the host records each answer (see
//! `durability`); the functions here that take an answer as argument are the
//! ones applied both to a live answer and to a replayed one.
use crate::guest::{ExtendedGuest, SynthesisRequest, TtsGuest};
use crate::guest::StreamRequest;
use crate::records::{batch_requests, spec_batch_requests, stream_request, synthesis_request};
use crate::streams::{DurableSynthesisStream, DurableVoiceConversionStream};
use crate::types::{
    AudioSample, LongFormResult, PronunciationEntry, PronunciationLexicon, SynthesisOptions,
    SynthesisResult, TextInput, TimingInfo, TtsError, ValidationResult, VoiceDesignParams,
    VoiceFilter, VoiceInfo,
};
use crate::voice_results::DurableVoiceResults;
use crate::voices::VoiceResource;
use std::marker::PhantomData;
use vstd::prelude::*;

verus! {

/// Whether `r` is what the caller of a listing or a search receives when the
/// voices answered are `answer`: those voices, in order, to be handed out, or
/// the failure.
pub open spec fn voice_results_answer(
    answer: Result<Vec<VoiceInfo>, TtsError>,
    r: Result<DurableVoiceResults, TtsError>,
) -> bool {
    &&& answer matches Ok(v) ==> (r matches Ok(results) && results@ == v@)
    &&& answer matches Err(e) ==> r == Err::<DurableVoiceResults, TtsError>(e)
}

/// Whether `r` is what the caller of a voice lookup receives when the voice
/// answered is `answer`: that voice, or the failure.
pub open spec fn voice_answer(answer: Result<VoiceInfo, TtsError>, r: Result<VoiceResource, TtsError>) -> bool {
    &&& answer matches Ok(info) ==> (r matches Ok(voice) && voice@ == info)
    &&& answer matches Err(e) ==> r == Err::<VoiceResource, TtsError>(e)
}

/// What the caller of a listing or a search receives, given the voices the
/// provider (or the record) answered: those voices, in order, to be handed out.
pub fn voice_results_from(answer: Result<Vec<VoiceInfo>, TtsError>) -> (r: Result<
    DurableVoiceResults,
    TtsError,
>)
    ensures
        voice_results_answer(answer, r),
        answer matches Ok(v) ==> (r matches Ok(results) && results@ == v@),
        answer is Ok ==> r is Ok,
        answer matches Err(e) ==> r == Err::<DurableVoiceResults, TtsError>(e),
{
    match answer {
        Ok(voices) => Ok(DurableVoiceResults::new(voices)),
        Err(e) => Err(e),
    }
}

/// What the caller of a voice lookup receives, given the voice the provider
/// (or the record) answered: that voice.
pub fn voice_from(answer: Result<VoiceInfo, TtsError>) -> (r: Result<VoiceResource, TtsError>)
    ensures
        voice_answer(answer, r),
        answer matches Ok(info) ==> (r matches Ok(voice) && voice@ == info),
        answer is Ok ==> r is Ok,
        answer matches Err(e) ==> r == Err::<VoiceResource, TtsError>(e),
{
    match answer {
        Ok(info) => Ok(VoiceResource::from_info(info)),
        Err(e) => Err(e),
    }
}

/// A successful listing or search hands its caller exactly the voices
/// answered, in order and every one of them; a failure is handed on as it is.
pub proof fn lemma_listing_keeps_every_voice(
    answer: Result<Vec<VoiceInfo>, TtsError>,
    r: Result<DurableVoiceResults, TtsError>,
)
    requires
        voice_results_answer(answer, r),
    ensures
        answer matches Ok(v) ==> (r matches Ok(results) && results@.len() == v@.len()
            && forall|i: int| 0 <= i < v@.len() ==> #[trigger] results@[i] == v@[i]),
        answer matches Err(e) ==> r == Err::<DurableVoiceResults, TtsError>(e),
{
}

/// A successful lookup hands its caller the voice answered, every field of
/// it unchanged; a failure is handed on as it is.
pub proof fn lemma_lookup_keeps_the_voice(answer: Result<VoiceInfo, TtsError>, r: Result<VoiceResource, TtsError>)
    requires
        voice_answer(answer, r),
    ensures
        answer matches Ok(info) ==> (r matches Ok(voice) && voice@.id == info.id && voice@.name == info.name
            && voice@.language == info.language
            && voice@.additional_languages == info.additional_languages && voice@.gender == info.gender
            && voice@.quality == info.quality && voice@.description == info.description
            && voice@.provider == info.provider && voice@.sample_rate == info.sample_rate
            && voice@.is_custom == info.is_custom && voice@.is_cloned == info.is_cloned
            && voice@.preview_url == info.preview_url && voice@.use_cases == info.use_cases),
        answer matches Err(e) ==> r == Err::<VoiceResource, TtsError>(e),
{
}

/// A listing or search handed the same answer live and on replay hands its
/// caller the same voices, in the same order, or the same failure.
pub proof fn lemma_listing_replays_alike(
    delivered: Result<Vec<VoiceInfo>, TtsError>,
    live: Result<DurableVoiceResults, TtsError>,
    replayed: Result<DurableVoiceResults, TtsError>,
)
    requires
        voice_results_answer(delivered, live),
        voice_results_answer(delivered, replayed),
    ensures
        live is Ok <==> replayed is Ok,
        live matches Ok(a) ==> (replayed matches Ok(b) && a@ == b@),
        live matches Err(e) ==> replayed == Err::<DurableVoiceResults, TtsError>(e),
{
}

/// A voice lookup handed the same answer live and on replay hands its caller
/// the same voice, or the same failure.
pub proof fn lemma_lookup_replays_alike(
    delivered: Result<VoiceInfo, TtsError>,
    live: Result<VoiceResource, TtsError>,
    replayed: Result<VoiceResource, TtsError>,
)
    requires
        voice_answer(delivered, live),
        voice_answer(delivered, replayed),
    ensures
        live is Ok <==> replayed is Ok,
        live matches Ok(a) ==> (replayed matches Ok(b) && a@ == b@),
        live matches Err(e) ==> replayed == Err::<VoiceResource, TtsError>(e),
{
}

/// The text-to-speech interface served by the provider `Impl`.
pub struct DurableTts<Impl> {
    phantom: PhantomData<Impl>,
}

impl<Impl: ExtendedGuest> DurableTts<Impl> {
    /// The provider's voices that pass `filter`, to be handed out.
    pub fn list_voices(filter: Option<VoiceFilter>) -> (r: Result<DurableVoiceResults, TtsError>)
        ensures
            exists|answer: Result<Vec<VoiceInfo>, TtsError>|
                #[trigger] call_ensures(Impl::list_voices, (filter,), answer) && voice_results_answer(answer, r)
                    && (answer matches Ok(v) ==> (r matches Ok(results) && results@ == v@))
                    && (answer matches Err(e) ==> r == Err::<DurableVoiceResults, TtsError>(e)),
    {
        voice_results_from(Impl::list_voices(filter))
    }

    /// The voice that the provider knows as `voice_id`.
    pub fn get_voice(voice_id: String) -> (r: Result<VoiceResource, TtsError>)
        ensures
            exists|answer: Result<VoiceInfo, TtsError>|
                #[trigger] call_ensures(Impl::get_voice, (voice_id,), answer) && voice_answer(answer, r)
                    && (answer matches Ok(info) ==> (r matches Ok(voice) && voice@ == info))
                    && (answer matches Err(e) ==> r == Err::<VoiceResource, TtsError>(e)),
    {
        voice_from(Impl::get_voice(voice_id))
    }

    /// The provider's voices that match `query` and pass `filter`, to be handed out.
    pub fn search_voices(query: String, filter: Option<VoiceFilter>) -> (r: Result<
        DurableVoiceResults,
        TtsError,
    >)
        ensures
            exists|answer: Result<Vec<VoiceInfo>, TtsError>|
                #[trigger] call_ensures(Impl::search_voices, (query, filter), answer)
                    && voice_results_answer(answer, r)
                    && (answer matches Ok(v) ==> (r matches Ok(results) && results@ == v@))
                    && (answer matches Err(e) ==> r == Err::<DurableVoiceResults, TtsError>(e)),
    {
        voice_results_from(Impl::search_voices(query, filter))
    }

    /// The languages the provider speaks.
    pub fn list_languages() -> (r: Result<Vec<String>, TtsError>)
        ensures
            call_ensures(Impl::list_languages, (), r),
    {
        Impl::list_languages()
    }

    /// Synthesizes `input` in `voice`.
    pub fn synthesize(
        input: TextInput,
        voice: &VoiceResource,
        options: Option<SynthesisOptions>,
    ) -> (r: Result<SynthesisResult, TtsError>)
        ensures
            call_ensures(Impl::synthesize, (SynthesisRequest { input, voice_id: voice@.id, options },), r),
    {
        Impl::synthesize(synthesis_request(input, voice.get_id(), options))
    }

    /// Synthesizes each of `inputs` in `voice`: the provider receives one
    /// request per input, in order, each with the voice and the options.
    pub fn synthesize_batch(
        inputs: Vec<TextInput>,
        voice: &VoiceResource,
        options: Option<SynthesisOptions>,
    ) -> (r: Result<Vec<SynthesisResult>, TtsError>)
        ensures
            exists|requests: Vec<SynthesisRequest>|
                #[trigger] call_ensures(Impl::synthesize_batch, (requests,), r)
                    && requests@ == spec_batch_requests(inputs@, voice@.id, options)
                    && requests@.len() == inputs@.len()
                    && (forall|i: int|
                        0 <= i < inputs@.len() ==> #[trigger] requests@[i] == (SynthesisRequest {
                            input: inputs@[i],
                            voice_id: voice@.id,
                            options,
                        })),
    {
        let voice_id = voice.get_id();
        let requests: Vec<SynthesisRequest> = batch_requests(inputs, &voice_id, &options);
        Impl::synthesize_batch(requests)
    }

    /// Where the pieces of `input` fall in its synthesis in `voice`.
    pub fn get_timing_marks(input: TextInput, voice: &VoiceResource) -> (r: Result<
        Vec<TimingInfo>,
        TtsError,
    >)
        ensures
            call_ensures(Impl::get_timing_marks, (input, voice@.id), r),
    {
        Impl::get_timing_marks(input, voice.get_id())
    }

    /// The provider's verdict on `input` for `voice`.
    pub fn validate_input(input: TextInput, voice: &VoiceResource) -> (r: Result<
        ValidationResult,
        TtsError,
    >)
        ensures
            call_ensures(Impl::validate_input, (input, voice@.id), r),
    {
        Impl::validate_input(input, voice.get_id())
    }

    /// Opens a synthesis stream in `voice`; an opened stream is live.
    pub fn create_stream(voice: &VoiceResource, options: Option<SynthesisOptions>) -> (r: Result<
        DurableSynthesisStream<Impl>,
        TtsError,
    >)
        ensures
            exists|answer: Result<Impl::SynthesisStream, TtsError>|
                #[trigger] call_ensures(Impl::create_stream, (StreamRequest { voice_id: voice@.id, options },), answer)
                    && (answer matches Ok(p) ==> (r matches Ok(s) && s.is_live() && s.provider_stream() == p))
                    && (answer matches Err(e) ==> r == Err::<DurableSynthesisStream<Impl>, TtsError>(e)),
    {
        match Impl::create_stream(stream_request(voice.get_id(), options)) {
            Ok(stream) => Ok(DurableSynthesisStream::live(stream)),
            Err(e) => Err(e),
        }
    }

    /// Opens a voice conversion stream to `target_voice`.
    pub fn create_voice_conversion_stream(
        target_voice: &VoiceResource,
        options: Option<SynthesisOptions>,
    ) -> (r: Result<DurableVoiceConversionStream<Impl>, TtsError>)
        ensures
            exists|answer: Result<Impl::VoiceConversionStream, TtsError>|
                #[trigger] call_ensures(
                    Impl::create_voice_conversion_stream,
                    (StreamRequest { voice_id: target_voice@.id, options },),
                    answer,
                ) && (answer matches Ok(p) ==> (r matches Ok(s) && s.provider_stream() == p))
                    && (answer matches Err(e) ==> r == Err::<DurableVoiceConversionStream<Impl>, TtsError>(e)),
    {
        match Impl::create_voice_conversion_stream(stream_request(target_voice.get_id(), options)) {
            Ok(stream) => Ok(DurableVoiceConversionStream::new(stream)),
            Err(e) => Err(e),
        }
    }

    /// Clones a voice from `audio_samples`; answers the new voice's identifier.
    pub fn create_voice_clone(
        name: String,
        audio_samples: Vec<AudioSample>,
        description: Option<String>,
    ) -> (r: Result<String, TtsError>)
        ensures
            call_ensures(Impl::create_voice_clone, (name, audio_samples, description), r),
    {
        Impl::create_voice_clone(name, audio_samples, description)
    }

    /// Designs a voice with `characteristics`; answers the new voice's identifier.
    pub fn design_voice(name: String, characteristics: VoiceDesignParams) -> (r: Result<
        String,
        TtsError,
    >)
        ensures
            call_ensures(Impl::design_voice, (name, characteristics), r),
    {
        Impl::design_voice(name, characteristics)
    }

    /// Converts `input_audio` to `target_voice`.
    pub fn convert_voice(
        input_audio: Vec<u8>,
        target_voice: &VoiceResource,
        preserve_timing: Option<bool>,
    ) -> (r: Result<SynthesisResult, TtsError>)
        ensures
            call_ensures(Impl::convert_voice, (input_audio, target_voice@.id, preserve_timing), r),
    {
        Impl::convert_voice(input_audio, target_voice.get_id(), preserve_timing)
    }

    /// Generates the sound effect `description`; `duration_seconds` and
    /// `style_influence` are bit patterns of `f32`s.
    pub fn generate_sound_effect(
        description: String,
        duration_seconds: Option<u32>,
        style_influence: Option<u32>,
    ) -> (r: Result<SynthesisResult, TtsError>)
        ensures
            call_ensures(Impl::generate_sound_effect, (description, duration_seconds, style_influence), r),
    {
        Impl::generate_sound_effect(description, duration_seconds, style_influence)
    }

    /// Lexicons are not managed: always refused as unsupported.
    pub fn create_lexicon(
        name: String,
        language: String,
        entries: Option<Vec<PronunciationEntry>>,
    ) -> (r: Result<PronunciationLexicon, TtsError>)
        ensures
            r matches Err(TtsError::UnsupportedOperation(m)) && m@ == "Lexicon management unsupported"@,
    {
        Err(TtsError::UnsupportedOperation("Lexicon management unsupported".to_owned()))
    }

    /// Synthesizes the long `content` in `voice` to `output_location`.
    pub fn synthesize_long_form(
        content: String,
        voice: &VoiceResource,
        output_location: String,
        chapter_breaks: Option<Vec<u32>>,
    ) -> (r: Result<LongFormResult, TtsError>)
        ensures
            call_ensures(
                Impl::synthesize_long_form,
                (content, voice@.id, output_location, chapter_breaks),
                r,
            ),
    {
        Impl::synthesize_long_form(content, voice.get_id(), output_location, chapter_breaks)
    }
}

} // verus!
