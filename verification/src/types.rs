//! The data that crosses the text-to-speech interface.
//!
//! Floating-point quantities of the interface (durations, speeds) are held
//! as the IEEE-754 bit pattern of the `f32`, so they pass through unchanged.
use vstd::prelude::*;

verus! {

/// Usage limits reported by a provider that refused a request.
#[derive(Clone, Copy, Debug, PartialEq, Eq)]
pub struct QuotaInfo {
    pub used: u32,
    pub limit: u32,
    pub reset_time: u64,
}

/// The errors of the text-to-speech interface.
#[derive(Clone, Debug, PartialEq, Eq)]
pub enum TtsError {
    InvalidText(String),
    TextTooLong(u32),
    InvalidSsml(String),
    UnsupportedLanguage(String),
    VoiceNotFound(String),
    ModelNotFound(String),
    VoiceUnavailable(String),
    Unauthorized(String),
    AccessDenied(String),
    QuotaExceeded(QuotaInfo),
    RateLimited(u32),
    InsufficientCredits,
    SynthesisFailed(String),
    UnsupportedOperation(String),
    InvalidConfiguration(String),
    ServiceUnavailable(String),
    NetworkError(String),
    InternalError(String),
    InvalidStorageLocation(String),
    StorageAccessDenied(String),
}

impl TtsError {
    /// A copy of this error, equal to it.
    pub fn duplicate(&self) -> (copy: TtsError)
        ensures
            copy == *self,
    {
        match self {
            TtsError::InvalidText(m) => TtsError::InvalidText(m.clone()),
            TtsError::TextTooLong(n) => TtsError::TextTooLong(*n),
            TtsError::InvalidSsml(m) => TtsError::InvalidSsml(m.clone()),
            TtsError::UnsupportedLanguage(m) => TtsError::UnsupportedLanguage(m.clone()),
            TtsError::VoiceNotFound(m) => TtsError::VoiceNotFound(m.clone()),
            TtsError::ModelNotFound(m) => TtsError::ModelNotFound(m.clone()),
            TtsError::VoiceUnavailable(m) => TtsError::VoiceUnavailable(m.clone()),
            TtsError::Unauthorized(m) => TtsError::Unauthorized(m.clone()),
            TtsError::AccessDenied(m) => TtsError::AccessDenied(m.clone()),
            TtsError::QuotaExceeded(q) => TtsError::QuotaExceeded(*q),
            TtsError::RateLimited(n) => TtsError::RateLimited(*n),
            TtsError::InsufficientCredits => TtsError::InsufficientCredits,
            TtsError::SynthesisFailed(m) => TtsError::SynthesisFailed(m.clone()),
            TtsError::UnsupportedOperation(m) => TtsError::UnsupportedOperation(m.clone()),
            TtsError::InvalidConfiguration(m) => TtsError::InvalidConfiguration(m.clone()),
            TtsError::ServiceUnavailable(m) => TtsError::ServiceUnavailable(m.clone()),
            TtsError::NetworkError(m) => TtsError::NetworkError(m.clone()),
            TtsError::InternalError(m) => TtsError::InternalError(m.clone()),
            TtsError::InvalidStorageLocation(m) => TtsError::InvalidStorageLocation(m.clone()),
            TtsError::StorageAccessDenied(m) => TtsError::StorageAccessDenied(m.clone()),
        }
    }
}

impl<'a> From<&'a TtsError> for TtsError {
    /// A copy of `err`, equal to it.
    fn from(err: &'a TtsError) -> (copy: TtsError) {
        err.duplicate()
    }
}

impl<'a> vstd::std_specs::convert::FromSpecImpl<&'a TtsError> for TtsError {
    open spec fn obeys_from_spec() -> bool {
        true
    }

    open spec fn from_spec(err: &'a TtsError) -> TtsError {
        *err
    }
}

/// Whether a text is plain or SSML markup.
#[derive(Clone, Copy, Debug, PartialEq, Eq)]
pub enum TextType {
    Plain,
    Ssml,
}

/// A text to speak.
#[derive(Clone, Debug, PartialEq, Eq)]
pub struct TextInput {
    pub content: String,
    pub text_type: TextType,
    pub language: Option<String>,
}

impl TextInput {
    /// A copy of this text, equal to it.
    pub fn duplicate(&self) -> (copy: TextInput)
        ensures
            copy == *self,
    {
        TextInput {
            content: self.content.clone(),
            text_type: self.text_type,
            language: duplicate_option_string(&self.language),
        }
    }
}

#[derive(Clone, Copy, Debug, PartialEq, Eq)]
pub enum VoiceGender {
    Male,
    Female,
    Neutral,
}

#[derive(Clone, Copy, Debug, PartialEq, Eq)]
pub enum VoiceQuality {
    Standard,
    Premium,
    Neural,
    Studio,
}

/// What a provider tells of one of its voices.
#[derive(Clone, Debug, PartialEq, Eq)]
pub struct VoiceInfo {
    pub id: String,
    pub name: String,
    pub language: String,
    pub additional_languages: Vec<String>,
    pub gender: VoiceGender,
    pub quality: VoiceQuality,
    pub description: Option<String>,
    pub provider: String,
    pub sample_rate: u32,
    pub is_custom: bool,
    pub is_cloned: bool,
    pub preview_url: Option<String>,
    pub use_cases: Vec<String>,
}

/// Restricts a listing or a search of voices.
#[derive(Clone, Debug, PartialEq, Eq)]
pub struct VoiceFilter {
    pub language: Option<String>,
    pub gender: Option<VoiceGender>,
    pub quality: Option<VoiceQuality>,
    pub supports_ssml: Option<bool>,
    pub provider: Option<String>,
    pub search_query: Option<String>,
}

#[derive(Clone, Copy, Debug, PartialEq, Eq)]
pub enum AudioFormat {
    Mp3,
    Wav,
    Pcm,
    OggOpus,
    Aac,
    Flac,
    Mulaw,
    Alaw,
}

/// Voice parameters; each is the bit pattern of an `f32`.
#[derive(Clone, Copy, Debug, PartialEq, Eq)]
pub struct VoiceSettings {
    pub speed: Option<u32>,
    pub pitch: Option<u32>,
    pub volume: Option<u32>,
    pub stability: Option<u32>,
    pub similarity: Option<u32>,
    pub style: Option<u32>,
}

/// How a text is to be synthesized.
#[derive(Clone, Debug, PartialEq, Eq)]
pub struct SynthesisOptions {
    pub audio_format: Option<AudioFormat>,
    pub sample_rate: Option<u32>,
    pub voice_settings: Option<VoiceSettings>,
    pub enable_timing: Option<bool>,
    pub enable_word_timing: Option<bool>,
    pub seed: Option<u32>,
    pub model_version: Option<String>,
}

/// A copy of an optional string, equal to it.
pub fn duplicate_option_string(s: &Option<String>) -> (copy: Option<String>)
    ensures
        copy == *s,
{
    match s {
        Some(v) => Some(v.clone()),
        None => None,
    }
}

impl SynthesisOptions {
    /// A copy of these options, equal to them.
    pub fn duplicate(&self) -> (copy: SynthesisOptions)
        ensures
            copy == *self,
    {
        SynthesisOptions {
            audio_format: self.audio_format,
            sample_rate: self.sample_rate,
            voice_settings: self.voice_settings,
            enable_timing: self.enable_timing,
            enable_word_timing: self.enable_word_timing,
            seed: self.seed,
            model_version: duplicate_option_string(&self.model_version),
        }
    }
}

/// A copy of optional synthesis options, equal to them.
pub fn duplicate_options(options: &Option<SynthesisOptions>) -> (copy: Option<SynthesisOptions>)
    ensures
        copy == *options,
{
    match options {
        Some(o) => Some(o.duplicate()),
        None => None,
    }
}

/// What a provider reports of a synthesis.
#[derive(Clone, Debug, PartialEq, Eq)]
pub struct SynthesisMetadata {
    /// The bit pattern of the duration in seconds, an `f32`.
    pub duration_seconds: u32,
    pub character_count: u32,
    pub word_count: u32,
    pub audio_size_bytes: u32,
    pub request_id: String,
    pub provider_info: Option<String>,
}

/// Synthesized audio.
#[derive(Clone, Debug, PartialEq, Eq)]
pub struct SynthesisResult {
    pub audio_data: Vec<u8>,
    pub metadata: SynthesisMetadata,
}

#[derive(Clone, Copy, Debug, PartialEq, Eq)]
pub enum TimingMarkType {
    Word,
    Sentence,
    Paragraph,
    SsmlMark,
    Viseme,
}

/// Where a piece of the text falls in the audio.
#[derive(Clone, Copy, Debug, PartialEq, Eq)]
pub struct TimingInfo {
    /// The bit pattern of the start time in seconds, an `f32`.
    pub start_time_seconds: u32,
    /// The bit pattern of the end time in seconds, an `f32`.
    pub end_time_seconds: Option<u32>,
    pub text_offset: Option<u32>,
    pub mark_type: Option<TimingMarkType>,
}

/// A provider's verdict on a text before synthesis.
#[derive(Clone, Debug, PartialEq, Eq)]
pub struct ValidationResult {
    pub is_valid: bool,
    pub character_count: u32,
    /// The bit pattern of the estimated duration in seconds, an `f32`.
    pub estimated_duration: Option<u32>,
    pub warnings: Vec<String>,
    pub errors: Vec<String>,
}

/// One piece of streamed audio.
#[derive(Clone, Debug, PartialEq, Eq)]
pub struct AudioChunk {
    pub data: Vec<u8>,
    pub sequence_number: u32,
    pub timing_info: Option<TimingInfo>,
    pub is_final: bool,
}

/// Where a synthesis stream stands.
#[derive(Clone, Copy, Debug, PartialEq, Eq)]
pub enum StreamStatus {
    Ready,
    Processing,
    Finished,
    Error,
    Closed,
}

/// A recording of a voice, to clone it.
#[derive(Clone, Debug, PartialEq, Eq)]
pub struct AudioSample {
    pub data: Vec<u8>,
    pub transcript: Option<String>,
    pub quality_rating: Option<u8>,
}

#[derive(Clone, Copy, Debug, PartialEq, Eq)]
pub enum AgeCategory {
    Child,
    YoungAdult,
    MiddleAged,
    Elderly,
}

/// The traits of a voice to design.
#[derive(Clone, Debug, PartialEq, Eq)]
pub struct VoiceDesignParams {
    pub gender: VoiceGender,
    pub age_category: AgeCategory,
    pub accent: String,
    pub personality_traits: Vec<String>,
    pub reference_voice: Option<String>,
}

/// The outcome of a long synthesis written to storage.
#[derive(Clone, Debug, PartialEq, Eq)]
pub struct LongFormResult {
    pub output_location: String,
    /// The bit pattern of the total duration in seconds, an `f32`.
    pub total_duration: u32,
    /// The bit patterns of the chapter durations in seconds, each an `f32`.
    pub chapter_durations: Option<Vec<u32>>,
    pub metadata: SynthesisMetadata,
}

/// How a word is to be pronounced.
#[derive(Clone, Debug, PartialEq, Eq)]
pub struct PronunciationEntry {
    pub word: String,
    pub pronunciation: String,
    pub part_of_speech: Option<String>,
}

/// A pronunciation lexicon kept by a provider.
#[derive(Clone, Debug, PartialEq, Eq)]
pub struct PronunciationLexicon {
    pub name: String,
    pub language: String,
    pub entries: Vec<PronunciationEntry>,
}

/// A copy of a string list, equal to it.
pub fn duplicate_strings(items: &Vec<String>) -> (copy: Vec<String>)
    ensures
        copy@ == items@,
{
    let mut copy: Vec<String> = Vec::new();
    let mut k: usize = 0;
    while k < items.len()
        invariant
            k <= items@.len(),
            copy@ == items@.subrange(0, k as int),
        decreases items@.len() - k,
    {
        copy.push(items[k].clone());
        k = k + 1;
    }
    copy
}

/// A copy of a byte list, equal to it.
pub fn duplicate_bytes(items: &Vec<u8>) -> (copy: Vec<u8>)
    ensures
        copy@ == items@,
{
    let mut copy: Vec<u8> = Vec::new();
    let mut k: usize = 0;
    while k < items.len()
        invariant
            k <= items@.len(),
            copy@ == items@.subrange(0, k as int),
        decreases items@.len() - k,
    {
        copy.push(items[k]);
        k = k + 1;
    }
    copy
}

/// A copy of an optional list of numbers, equal to it.
pub fn duplicate_option_numbers(items: &Option<Vec<u32>>) -> (copy: Option<Vec<u32>>)
    ensures
        copy is Some <==> items is Some,
        items matches Some(v) ==> copy->0@ == v@,
{
    match items {
        Some(v) => {
            let mut copy: Vec<u32> = Vec::new();
            let mut k: usize = 0;
            while k < v.len()
                invariant
                    k <= v@.len(),
                    copy@ == v@.subrange(0, k as int),
                decreases v@.len() - k,
            {
                copy.push(v[k]);
                k = k + 1;
            }
            Some(copy)
        },
        None => None,
    }
}

impl VoiceFilter {
    /// A copy of this filter, equal to it.
    pub fn duplicate(&self) -> (copy: VoiceFilter)
        ensures
            copy == *self,
    {
        VoiceFilter {
            language: duplicate_option_string(&self.language),
            gender: self.gender,
            quality: self.quality,
            supports_ssml: self.supports_ssml,
            provider: duplicate_option_string(&self.provider),
            search_query: duplicate_option_string(&self.search_query),
        }
    }
}

/// A copy of an optional filter, equal to it.
pub fn duplicate_filter(filter: &Option<VoiceFilter>) -> (copy: Option<VoiceFilter>)
    ensures
        copy == *filter,
{
    match filter {
        Some(f) => Some(f.duplicate()),
        None => None,
    }
}

impl AudioSample {
    /// A copy of this sample, with equal data, transcript and rating.
    pub fn duplicate(&self) -> (copy: AudioSample)
        ensures
            copy.data@ == self.data@,
            copy.transcript == self.transcript,
            copy.quality_rating == self.quality_rating,
    {
        AudioSample {
            data: duplicate_bytes(&self.data),
            transcript: duplicate_option_string(&self.transcript),
            quality_rating: self.quality_rating,
        }
    }
}

impl VoiceDesignParams {
    /// A copy of these parameters, with equal fields.
    pub fn duplicate(&self) -> (copy: VoiceDesignParams)
        ensures
            copy.gender == self.gender,
            copy.age_category == self.age_category,
            copy.accent == self.accent,
            copy.personality_traits@ == self.personality_traits@,
            copy.reference_voice == self.reference_voice,
    {
        VoiceDesignParams {
            gender: self.gender,
            age_category: self.age_category,
            accent: self.accent.clone(),
            personality_traits: duplicate_strings(&self.personality_traits),
            reference_voice: duplicate_option_string(&self.reference_voice),
        }
    }
}

/// Whether two sample lists hold the same samples, in order: equal data,
/// transcripts and ratings.
pub open spec fn samples_alike(a: Seq<AudioSample>, b: Seq<AudioSample>) -> bool {
    &&& a.len() == b.len()
    &&& forall|i: int|
        0 <= i < a.len() ==> {
            &&& (#[trigger] a[i]).data@ == b[i].data@
            &&& a[i].transcript == b[i].transcript
            &&& a[i].quality_rating == b[i].quality_rating
        }
}

/// A copy of a sample list, holding the same samples in order.
pub fn duplicate_samples(samples: &Vec<AudioSample>) -> (copy: Vec<AudioSample>)
    ensures
        samples_alike(copy@, samples@),
{
    let mut copy: Vec<AudioSample> = Vec::new();
    let mut k: usize = 0;
    while k < samples.len()
        invariant
            k <= samples@.len(),
            samples_alike(copy@, samples@.subrange(0, k as int)),
        decreases samples@.len() - k,
    {
        copy.push(samples[k].duplicate());
        k = k + 1;
    }
    assert(samples@.subrange(0, samples@.len() as int) =~= samples@);
    copy
}

} // verus!
