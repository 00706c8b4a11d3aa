use golem_tts::durability::DurableFunction;
use golem_tts::guest::{StreamRequest, SynthesisRequest};
use golem_tts::plans::{
    convert_voice_call, create_stream_call, create_voice_clone_call,
    create_voice_conversion_stream_call, design_voice_call, generate_sound_effect_call,
    get_timing_marks_call, get_voice_call, list_languages_call, list_voices_call,
    search_voices_call, stream_finish_call, stream_receive_chunk_call, stream_send_text_call,
    synthesize_batch_call, synthesize_call, synthesize_long_form_call, validate_input_call,
    voice_conversion_finish_call, voice_conversion_receive_call, voice_conversion_send_audio_call,
};
use golem_tts::records::{
    AudioInput, ConvertVoiceInput, LongFormInput, NoInput, SearchVoiceInput, SoundEffectInput,
    StreamInput, SynthesizeInput, TimingInput, VoiceCloneInput, VoiceDesignInput, VoiceInput,
    VoicesInput,
};
use golem_tts::types::{
    AgeCategory, AudioSample, SynthesisOptions, TextInput, TextType, VoiceDesignParams,
    VoiceFilter, VoiceGender, VoiceInfo, VoiceQuality,
};
use golem_tts::voices::VoiceResource;

fn text(content: &str) -> TextInput {
    TextInput { content: content.to_string(), text_type: TextType::Ssml, language: Some("en".to_string()) }
}

fn voice(id: &str) -> VoiceResource {
    VoiceResource::from_info(VoiceInfo {
        id: id.to_string(),
        name: "N".to_string(),
        language: "en".to_string(),
        additional_languages: vec![],
        gender: VoiceGender::Male,
        quality: VoiceQuality::Premium,
        description: None,
        provider: "p".to_string(),
        sample_rate: 44100,
        is_custom: true,
        is_cloned: false,
        preview_url: None,
        use_cases: vec![],
    })
}

fn options() -> Option<SynthesisOptions> {
    Some(SynthesisOptions {
        audio_format: None,
        sample_rate: Some(16000),
        voice_settings: None,
        enable_timing: Some(false),
        enable_word_timing: None,
        seed: None,
        model_version: Some("m".to_string()),
    })
}

fn filter() -> Option<VoiceFilter> {
    Some(VoiceFilter {
        language: Some("de".to_string()),
        gender: Some(VoiceGender::Female),
        quality: None,
        supports_ssml: Some(true),
        provider: None,
        search_query: Some("warm".to_string()),
    })
}

#[test]
fn voice_listing_plan() {
    let c = list_voices_call(filter());
    assert_eq!(c.function, DurableFunction::ListVoices);
    assert_eq!(c.input, VoicesInput { filter: filter() });
    assert_eq!(c.request, filter());
}

#[test]
fn voice_lookup_and_search_plans() {
    let c = get_voice_call("abc".to_string());
    assert_eq!(c.function, DurableFunction::GetVoice);
    assert_eq!(c.input, VoiceInput { voice_id: "abc".to_string() });
    assert_eq!(c.request, "abc");
    let c = search_voices_call("calm".to_string(), None);
    assert_eq!(c.function, DurableFunction::SearchVoices);
    assert_eq!(c.input, SearchVoiceInput { query: "calm".to_string(), filter: None });
    assert_eq!(c.request, c.input);
    let c = list_languages_call();
    assert_eq!(c.function, DurableFunction::ListLanguages);
    assert_eq!(c.input, NoInput {});
}

#[test]
fn synthesis_plan_records_and_requests_the_same_arguments() {
    let c = synthesize_call(text("hello"), &voice("v"), options());
    assert_eq!(c.function, DurableFunction::Synthesize);
    assert_eq!(c.input, SynthesizeInput { input: text("hello"), voice_id: "v".to_string(), options: options() });
    assert_eq!(c.request, SynthesisRequest { input: text("hello"), voice_id: "v".to_string(), options: options() });
}

#[test]
fn batch_plan_records_one_request_per_input_in_order() {
    let c = synthesize_batch_call(vec![text("a"), text("b")], &voice("w"), None);
    assert_eq!(c.function, DurableFunction::SynthesizeBatch);
    assert_eq!(
        c.input.requests,
        vec![
            SynthesizeInput { input: text("a"), voice_id: "w".to_string(), options: None },
            SynthesizeInput { input: text("b"), voice_id: "w".to_string(), options: None },
        ]
    );
    assert_eq!(
        c.request,
        vec![
            SynthesisRequest { input: text("a"), voice_id: "w".to_string(), options: None },
            SynthesisRequest { input: text("b"), voice_id: "w".to_string(), options: None },
        ]
    );
}

#[test]
fn timing_and_validation_plans() {
    let c = get_timing_marks_call(text("t"), &voice("x"));
    assert_eq!(c.function, DurableFunction::GetTimingMarks);
    assert_eq!(c.input, TimingInput { input: text("t"), voice_id: "x".to_string() });
    assert_eq!(c.request, c.input);
    let c = validate_input_call(text("t"), &voice("x"));
    assert_eq!(c.function, DurableFunction::ValidateInput);
    assert_eq!(c.input, TimingInput { input: text("t"), voice_id: "x".to_string() });
}

#[test]
fn stream_creation_plans() {
    let c = create_stream_call(&voice("s"), options());
    assert_eq!(c.function, DurableFunction::CreateStream);
    assert_eq!(c.input, StreamInput { voice_id: "s".to_string(), options: options() });
    assert_eq!(c.request, StreamRequest { voice_id: "s".to_string(), options: options() });
    let c = create_voice_conversion_stream_call(&voice("s"), None);
    assert_eq!(c.function, DurableFunction::CreateVoiceConversionStream);
    assert_eq!(c.input, StreamInput { voice_id: "s".to_string(), options: None });
}

#[test]
fn advanced_plans() {
    let sample = AudioSample { data: vec![1, 2, 3], transcript: Some("hey".to_string()), quality_rating: Some(4) };
    let c = create_voice_clone_call("me".to_string(), vec![sample.clone()], Some("d".to_string()));
    assert_eq!(c.function, DurableFunction::CreateVoiceClone);
    let expected = VoiceCloneInput { name: "me".to_string(), audio_samples: vec![sample], description: Some("d".to_string()) };
    assert_eq!(c.input, expected);
    assert_eq!(c.request, expected);

    let params = VoiceDesignParams {
        gender: VoiceGender::Neutral,
        age_category: AgeCategory::Elderly,
        accent: "irish".to_string(),
        personality_traits: vec!["calm".to_string(), "wise".to_string()],
        reference_voice: None,
    };
    let c = design_voice_call("old".to_string(), params.clone());
    assert_eq!(c.function, DurableFunction::DesignVoice);
    assert_eq!(c.input, VoiceDesignInput { name: "old".to_string(), characteristics: params });

    let c = convert_voice_call(vec![9, 8], &voice("t"), Some(true));
    assert_eq!(c.function, DurableFunction::ConvertVoice);
    assert_eq!(c.input, ConvertVoiceInput { input_audio: vec![9, 8], voice_id: "t".to_string(), preserve_timing: Some(true) });

    let c = generate_sound_effect_call("rain".to_string(), Some(2.0f32.to_bits()), None);
    assert_eq!(c.function, DurableFunction::GenerateSoundEffect);
    assert_eq!(c.input, SoundEffectInput { description: "rain".to_string(), duration_seconds: Some(2.0f32.to_bits()), style_influence: None });

    let c = synthesize_long_form_call("book".to_string(), &voice("n"), "out".to_string(), Some(vec![3, 7]));
    assert_eq!(c.function, DurableFunction::SynthesizeLongForm);
    assert_eq!(
        c.input,
        LongFormInput { content: "book".to_string(), voice_id: "n".to_string(), output_location: "out".to_string(), chapter_breaks: Some(vec![3, 7]) }
    );
    assert_eq!(c.request, c.input);
}

#[test]
fn stream_exchange_plans() {
    let c = stream_send_text_call(text("more"));
    assert_eq!(c.function, DurableFunction::StreamSendText);
    assert_eq!(c.input, text("more"));
    assert_eq!(c.request, text("more"));
    assert_eq!(stream_finish_call().function, DurableFunction::StreamFinish);
    assert_eq!(stream_receive_chunk_call().function, DurableFunction::StreamReceiveChunk);
    let c = voice_conversion_send_audio_call(vec![5]);
    assert_eq!(c.function, DurableFunction::VoiceConversionSendAudio);
    assert_eq!(c.input, AudioInput { audio_data: vec![5] });
    assert_eq!(voice_conversion_receive_call().function, DurableFunction::VoiceConversionReceive);
    assert_eq!(voice_conversion_finish_call().function, DurableFunction::VoiceConversionFinish);
}
