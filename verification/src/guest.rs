//! What a text-to-speech provider implements, and the requests it is handed.
use crate::types::{
    AudioChunk, AudioSample, LongFormResult, StreamStatus, SynthesisOptions, SynthesisResult,
    TextInput, TimingInfo, TtsError, ValidationResult, VoiceDesignParams, VoiceFilter, VoiceInfo,
};
use vstd::prelude::*;

verus! {

/// A text to synthesize, with the voice and the options to use.
#[derive(Clone, Debug, PartialEq, Eq)]
pub struct SynthesisRequest {
    pub input: TextInput,
    pub voice_id: String,
    pub options: Option<SynthesisOptions>,
}

/// The voice and the options of a stream to open.
#[derive(Clone, Debug, PartialEq, Eq)]
pub struct StreamRequest {
    pub voice_id: String,
    pub options: Option<SynthesisOptions>,
}

/// A synthesis stream opened by a provider. Like the interface's stream
/// resources, it is used through shared references; a provider keeps the
/// stream's changing state inside it.
pub trait SynthesisStreamGuest {
    fn send_text(&self, input: TextInput) -> Result<(), TtsError>;

    fn finish(&self) -> Result<(), TtsError>;

    fn receive_chunk(&self) -> Result<Option<AudioChunk>, TtsError>;

    fn has_pending_audio(&self) -> bool;

    fn get_status(&self) -> StreamStatus;

    fn close(&self);
}

/// A voice conversion stream opened by a provider, used through shared
/// references like a synthesis stream.
pub trait VoiceConversionStreamGuest {
    fn send_audio(&self, audio_data: Vec<u8>) -> Result<(), TtsError>;

    fn receive_converted(&self) -> Result<Option<AudioChunk>, TtsError>;

    fn finish(&self) -> Result<(), TtsError>;

    fn close(&self);
}

/// A text-to-speech provider. Each provider implements it; what a provider
/// answers is up to the provider, so no method promises anything of it.
pub trait TtsGuest {
    type SynthesisStream: SynthesisStreamGuest;

    type VoiceConversionStream: VoiceConversionStreamGuest;

    fn list_voices(filter: Option<VoiceFilter>) -> Result<Vec<VoiceInfo>, TtsError>;

    fn get_voice(voice_id: String) -> Result<VoiceInfo, TtsError>;

    fn search_voices(query: String, filter: Option<VoiceFilter>) -> Result<Vec<VoiceInfo>, TtsError>;

    fn list_languages() -> Result<Vec<String>, TtsError>;

    fn synthesize(request: SynthesisRequest) -> Result<SynthesisResult, TtsError>;

    fn synthesize_batch(requests: Vec<SynthesisRequest>) -> Result<Vec<SynthesisResult>, TtsError>;

    fn get_timing_marks(input: TextInput, voice_id: String) -> Result<Vec<TimingInfo>, TtsError>;

    fn validate_input(input: TextInput, voice_id: String) -> Result<ValidationResult, TtsError>;

    fn create_stream(request: StreamRequest) -> Result<Self::SynthesisStream, TtsError>;

    fn create_voice_conversion_stream(request: StreamRequest) -> Result<
        Self::VoiceConversionStream,
        TtsError,
    >;

    fn create_voice_clone(
        name: String,
        audio_samples: Vec<AudioSample>,
        description: Option<String>,
    ) -> Result<String, TtsError>;

    fn design_voice(name: String, characteristics: VoiceDesignParams) -> Result<String, TtsError>;

    fn convert_voice(
        input_audio: Vec<u8>,
        voice_id: String,
        preserve_timing: Option<bool>,
    ) -> Result<SynthesisResult, TtsError>;

    /// `duration_seconds` and `style_influence` are bit patterns of `f32`s.
    fn generate_sound_effect(
        description: String,
        duration_seconds: Option<u32>,
        style_influence: Option<u32>,
    ) -> Result<SynthesisResult, TtsError>;

    fn synthesize_long_form(
        content: String,
        voice_id: String,
        output_location: String,
        chapter_breaks: Option<Vec<u32>>,
    ) -> Result<LongFormResult, TtsError>;
}

/// A provider that the durable wrapper can serve.
pub trait ExtendedGuest: TtsGuest + 'static {

}

} // verus!
