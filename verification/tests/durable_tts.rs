use std::cell::{Cell, RefCell};
use golem_tts::durable_tts::{voice_from, voice_results_from, DurableTts};
use golem_tts::guest::{
    ExtendedGuest, StreamRequest, SynthesisRequest, SynthesisStreamGuest, TtsGuest,
    VoiceConversionStreamGuest,
};
use golem_tts::types::{
    AgeCategory, AudioChunk, AudioSample, LongFormResult, StreamStatus, SynthesisMetadata,
    SynthesisOptions, SynthesisResult, TextInput, TextType, TimingInfo, TtsError,
    ValidationResult, VoiceDesignParams, VoiceFilter, VoiceGender, VoiceInfo, VoiceQuality,
};
use golem_tts::voices::VoiceResource;
use golem_tts::plans::{
    convert_voice_call, create_stream_call, create_voice_clone_call,
    create_voice_conversion_stream_call, design_voice_call, generate_sound_effect_call,
    get_timing_marks_call, get_voice_call, list_languages_call, list_voices_call,
    search_voices_call, synthesize_batch_call, synthesize_call, synthesize_long_form_call,
    validate_input_call,
};
use golem_tts::records::StreamInput;

fn voice(id: &str) -> VoiceInfo {
    VoiceInfo {
        id: id.to_string(),
        name: id.to_uppercase(),
        language: "en".to_string(),
        additional_languages: vec![],
        gender: VoiceGender::Male,
        quality: VoiceQuality::Standard,
        description: None,
        provider: "echo".to_string(),
        sample_rate: 16000,
        is_custom: false,
        is_cloned: false,
        preview_url: None,
        use_cases: vec![],
    }
}

fn text(content: &str) -> TextInput {
    TextInput { content: content.to_string(), text_type: TextType::Plain, language: None }
}

/// Answers each request with its own text and voice, so tests see what the
/// provider was handed.
fn echo(request: &SynthesisRequest) -> SynthesisResult {
    SynthesisResult {
        audio_data: request.input.content.as_bytes().to_vec(),
        metadata: SynthesisMetadata {
            duration_seconds: 1.0f32.to_bits(),
            character_count: request.input.content.len() as u32,
            word_count: 1,
            audio_size_bytes: request.input.content.len() as u32,
            request_id: request.voice_id.clone(),
            provider_info: request.options.as_ref().and_then(|o| o.model_version.clone()),
        },
    }
}

struct EchoStream {
    sent: RefCell<Vec<String>>,
    finished: Cell<bool>,
    closed: Cell<bool>,
}

impl SynthesisStreamGuest for EchoStream {
    fn send_text(&self, input: TextInput) -> Result<(), TtsError> {
        self.sent.borrow_mut().push(input.content);
        Ok(())
    }
    fn finish(&self) -> Result<(), TtsError> {
        self.finished.set(true);
        Ok(())
    }
    fn receive_chunk(&self) -> Result<Option<AudioChunk>, TtsError> {
        let mut sent = self.sent.borrow_mut();
        if sent.is_empty() {
            return Ok(None);
        }
        let content = sent.remove(0);
        Ok(Some(AudioChunk {
            data: content.into_bytes(),
            sequence_number: 0,
            timing_info: None,
            is_final: sent.is_empty() && self.finished.get(),
        }))
    }
    fn has_pending_audio(&self) -> bool {
        !self.sent.borrow().is_empty()
    }
    fn get_status(&self) -> StreamStatus {
        if self.closed.get() {
            StreamStatus::Closed
        } else if self.finished.get() {
            StreamStatus::Finished
        } else {
            StreamStatus::Ready
        }
    }
    fn close(&self) {
        self.closed.set(true);
    }
}

struct EchoConversion {
    audio: RefCell<Vec<u8>>,
    closed: Cell<bool>,
}

impl VoiceConversionStreamGuest for EchoConversion {
    fn send_audio(&self, audio_data: Vec<u8>) -> Result<(), TtsError> {
        if self.closed.get() {
            return Err(TtsError::InternalError("closed".to_string()));
        }
        self.audio.borrow_mut().extend(audio_data);
        Ok(())
    }
    fn receive_converted(&self) -> Result<Option<AudioChunk>, TtsError> {
        let mut audio = self.audio.borrow_mut();
        if audio.is_empty() {
            Ok(None)
        } else {
            Ok(Some(AudioChunk {
                data: std::mem::take(&mut *audio),
                sequence_number: 1,
                timing_info: None,
                is_final: true,
            }))
        }
    }
    fn finish(&self) -> Result<(), TtsError> {
        Ok(())
    }
    fn close(&self) {
        self.closed.set(true);
    }
}

struct Echo;

impl TtsGuest for Echo {
    type SynthesisStream = EchoStream;
    type VoiceConversionStream = EchoConversion;

    fn list_voices(filter: Option<VoiceFilter>) -> Result<Vec<VoiceInfo>, TtsError> {
        match filter.and_then(|f| f.language) {
            Some(lang) if lang != "en" => Ok(vec![]),
            _ => Ok(vec![voice("a"), voice("b")]),
        }
    }
    fn get_voice(voice_id: String) -> Result<VoiceInfo, TtsError> {
        if voice_id == "missing" {
            Err(TtsError::VoiceNotFound(voice_id))
        } else {
            Ok(voice(&voice_id))
        }
    }
    fn search_voices(query: String, _filter: Option<VoiceFilter>) -> Result<Vec<VoiceInfo>, TtsError> {
        Ok(vec![voice(&query)])
    }
    fn list_languages() -> Result<Vec<String>, TtsError> {
        Ok(vec!["en".to_string(), "de".to_string()])
    }
    fn synthesize(request: SynthesisRequest) -> Result<SynthesisResult, TtsError> {
        Ok(echo(&request))
    }
    fn synthesize_batch(requests: Vec<SynthesisRequest>) -> Result<Vec<SynthesisResult>, TtsError> {
        Ok(requests.iter().map(echo).collect())
    }
    fn get_timing_marks(input: TextInput, _voice_id: String) -> Result<Vec<TimingInfo>, TtsError> {
        Ok(vec![TimingInfo {
            start_time_seconds: 0,
            end_time_seconds: None,
            text_offset: Some(input.content.len() as u32),
            mark_type: None,
        }])
    }
    fn validate_input(input: TextInput, voice_id: String) -> Result<ValidationResult, TtsError> {
        Ok(ValidationResult {
            is_valid: !input.content.is_empty(),
            character_count: input.content.len() as u32,
            estimated_duration: None,
            warnings: vec![voice_id],
            errors: vec![],
        })
    }
    fn create_stream(request: StreamRequest) -> Result<EchoStream, TtsError> {
        if request.voice_id == "missing" {
            Err(TtsError::VoiceNotFound(request.voice_id))
        } else {
            Ok(EchoStream { sent: RefCell::new(vec![]), finished: Cell::new(false), closed: Cell::new(false) })
        }
    }
    fn create_voice_conversion_stream(_request: StreamRequest) -> Result<EchoConversion, TtsError> {
        Ok(EchoConversion { audio: RefCell::new(vec![]), closed: Cell::new(false) })
    }
    fn create_voice_clone(
        name: String,
        audio_samples: Vec<AudioSample>,
        _description: Option<String>,
    ) -> Result<String, TtsError> {
        Ok(format!("{name}-{}", audio_samples.len()))
    }
    fn design_voice(name: String, characteristics: VoiceDesignParams) -> Result<String, TtsError> {
        Ok(format!("{name}-{}", characteristics.accent))
    }
    fn convert_voice(
        input_audio: Vec<u8>,
        voice_id: String,
        _preserve_timing: Option<bool>,
    ) -> Result<SynthesisResult, TtsError> {
        Ok(echo(&SynthesisRequest {
            input: text(&String::from_utf8(input_audio).unwrap()),
            voice_id,
            options: None,
        }))
    }
    fn generate_sound_effect(
        description: String,
        duration_seconds: Option<u32>,
        _style_influence: Option<u32>,
    ) -> Result<SynthesisResult, TtsError> {
        let mut r = echo(&SynthesisRequest { input: text(&description), voice_id: String::new(), options: None });
        if let Some(d) = duration_seconds {
            r.metadata.duration_seconds = d;
        }
        Ok(r)
    }
    fn synthesize_long_form(
        content: String,
        voice_id: String,
        output_location: String,
        chapter_breaks: Option<Vec<u32>>,
    ) -> Result<LongFormResult, TtsError> {
        let r = echo(&SynthesisRequest { input: text(&content), voice_id, options: None });
        Ok(LongFormResult {
            output_location,
            total_duration: 2.5f32.to_bits(),
            chapter_durations: chapter_breaks,
            metadata: r.metadata,
        })
    }
}

impl ExtendedGuest for Echo {}

type Tts = DurableTts<Echo>;

#[test]
fn list_voices_hands_out_the_providers_voices() {
    let mut results = Tts::list_voices(None).unwrap();
    assert!(results.has_more());
    assert_eq!(results.get_total_count(), Some(2));
    assert_eq!(results.get_next().unwrap(), vec![voice("a"), voice("b")]);
    assert!(!results.has_more());
}

#[test]
fn list_voices_passes_the_filter() {
    let filter = VoiceFilter {
        language: Some("fr".to_string()),
        gender: None,
        quality: None,
        supports_ssml: None,
        provider: None,
        search_query: None,
    };
    let results = Tts::list_voices(Some(filter)).unwrap();
    assert!(!results.has_more());
}

#[test]
fn get_voice_answers_the_providers_voice() {
    let v = Tts::get_voice("rachel".to_string()).unwrap();
    assert_eq!(v.get_id(), "rachel");
    assert_eq!(v.info(), &voice("rachel"));
}

#[test]
fn get_voice_passes_the_providers_error() {
    assert_eq!(
        Tts::get_voice("missing".to_string()).err(),
        Some(TtsError::VoiceNotFound("missing".to_string()))
    );
}

#[test]
fn search_voices_hands_the_query_over() {
    let mut results = Tts::search_voices("calm".to_string(), None).unwrap();
    assert_eq!(results.get_next().unwrap(), vec![voice("calm")]);
}

#[test]
fn list_languages_answers_the_providers_languages() {
    assert_eq!(Tts::list_languages().unwrap(), vec!["en".to_string(), "de".to_string()]);
}

#[test]
fn synthesize_hands_over_text_voice_and_options() {
    let v = VoiceResource::from_info(voice("v7"));
    let options = SynthesisOptions {
        audio_format: None,
        sample_rate: None,
        voice_settings: None,
        enable_timing: None,
        enable_word_timing: None,
        seed: None,
        model_version: Some("turbo".to_string()),
    };
    let r = Tts::synthesize(text("hello"), &v, Some(options)).unwrap();
    assert_eq!(r.audio_data, b"hello".to_vec());
    assert_eq!(r.metadata.request_id, "v7");
    assert_eq!(r.metadata.provider_info, Some("turbo".to_string()));
}

#[test]
fn synthesize_batch_hands_over_one_request_per_input_in_order() {
    let v = VoiceResource::from_info(voice("v8"));
    let r = Tts::synthesize_batch(vec![text("one"), text("two")], &v, None).unwrap();
    assert_eq!(r.len(), 2);
    assert_eq!(r[0].audio_data, b"one".to_vec());
    assert_eq!(r[1].audio_data, b"two".to_vec());
    assert!(r.iter().all(|x| x.metadata.request_id == "v8"));
}

#[test]
fn timing_and_validation_hand_over_text_and_voice() {
    let v = VoiceResource::from_info(voice("v9"));
    let marks = Tts::get_timing_marks(text("abcd"), &v).unwrap();
    assert_eq!(marks[0].text_offset, Some(4));
    let verdict = Tts::validate_input(text(""), &v).unwrap();
    assert!(!verdict.is_valid);
    assert_eq!(verdict.warnings, vec!["v9".to_string()]);
}

#[test]
fn created_stream_is_live_and_forwards_to_the_provider() {
    let v = VoiceResource::from_info(voice("s"));
    let stream = Tts::create_stream(&v, None).unwrap();
    assert_eq!(stream.get_status(), StreamStatus::Ready);
    assert!(!stream.has_pending_audio());
    stream.send_text(text("part one")).unwrap();
    assert!(stream.has_pending_audio());
    stream.finish().unwrap();
    let chunk = stream.receive_chunk().unwrap().unwrap();
    assert_eq!(chunk.data, b"part one".to_vec());
    assert!(chunk.is_final);
    assert_eq!(stream.receive_chunk().unwrap(), None);
    assert_eq!(stream.get_status(), StreamStatus::Finished);
    stream.close();
    assert_eq!(stream.get_status(), StreamStatus::Closed);
}

#[test]
fn failed_stream_creation_passes_the_error() {
    let v = VoiceResource::from_info(voice("missing"));
    assert_eq!(
        Tts::create_stream(&v, None).err().map(|e| format!("{e:?}")),
        Some(format!("{:?}", TtsError::VoiceNotFound("missing".to_string())))
    );
}

#[test]
fn voice_conversion_stream_forwards_to_the_provider() {
    let v = VoiceResource::from_info(voice("t"));
    let stream = Tts::create_voice_conversion_stream(&v, None).unwrap();
    stream.send_audio(vec![1, 2]).unwrap();
    stream.send_audio(vec![3]).unwrap();
    stream.finish().unwrap();
    let chunk = stream.receive_converted().unwrap().unwrap();
    assert_eq!(chunk.data, vec![1, 2, 3]);
    assert_eq!(stream.receive_converted().unwrap(), None);
    stream.close();
    assert_eq!(
        stream.send_audio(vec![4]),
        Err(TtsError::InternalError("closed".to_string()))
    );
}

#[test]
fn advanced_calls_hand_their_arguments_over() {
    let sample = AudioSample { data: vec![0; 4], transcript: None, quality_rating: Some(5) };
    assert_eq!(
        Tts::create_voice_clone("mine".to_string(), vec![sample.clone(), sample], None).unwrap(),
        "mine-2"
    );
    let params = VoiceDesignParams {
        gender: VoiceGender::Neutral,
        age_category: AgeCategory::YoungAdult,
        accent: "scottish".to_string(),
        personality_traits: vec!["warm".to_string()],
        reference_voice: None,
    };
    assert_eq!(Tts::design_voice("d".to_string(), params).unwrap(), "d-scottish");
    let v = VoiceResource::from_info(voice("target"));
    let converted = Tts::convert_voice(b"abc".to_vec(), &v, Some(true)).unwrap();
    assert_eq!(converted.metadata.request_id, "target");
    let effect = Tts::generate_sound_effect("rain".to_string(), Some(3.5f32.to_bits()), None).unwrap();
    assert_eq!(f32::from_bits(effect.metadata.duration_seconds), 3.5);
    let long = Tts::synthesize_long_form("book".to_string(), &v, "s3://out".to_string(), Some(vec![10, 20])).unwrap();
    assert_eq!(long.output_location, "s3://out");
    assert_eq!(long.chapter_durations, Some(vec![10, 20]));
    assert_eq!(long.metadata.request_id, "target");
}

#[test]
fn create_lexicon_is_unsupported() {
    let r = Tts::create_lexicon("lex".to_string(), "en".to_string(), None);
    assert_eq!(
        r,
        Err(TtsError::UnsupportedOperation("Lexicon management unsupported".to_string()))
    );
}

#[test]
fn voice_results_from_answer() {
    let mut r = voice_results_from(Ok(vec![voice("x")])).unwrap();
    assert_eq!(r.get_next().unwrap(), vec![voice("x")]);
    assert_eq!(
        voice_results_from(Err(TtsError::NetworkError("down".to_string()))).err(),
        None.or(Some(TtsError::NetworkError("down".to_string())))
    );
}

#[test]
fn voice_from_answer() {
    assert_eq!(voice_from(Ok(voice("y"))).unwrap().get_id(), "y");
    assert_eq!(
        voice_from(Err(TtsError::Unauthorized("key".to_string()))).err().map(|e| format!("{e:?}")),
        Some(format!("{:?}", TtsError::Unauthorized("key".to_string())))
    );
}

#[test]
fn live_halves_hand_the_planned_request_to_the_provider() {
    let v = VoiceResource::from_info(voice("v5"));
    let c = synthesize_call(text("live"), &v, None);
    let r = Tts::synthesize_answer(c.request).unwrap();
    assert_eq!(r.audio_data, b"live".to_vec());
    assert_eq!(r.metadata.request_id, "v5");
    let c = synthesize_batch_call(vec![text("p"), text("q")], &v, None);
    let r = Tts::synthesize_batch_answer(c.request).unwrap();
    assert_eq!(r.len(), 2);
    assert_eq!(r[1].audio_data, b"q".to_vec());
    let c = list_voices_call(None);
    assert_eq!(Tts::list_voices_answer(c.request).unwrap(), vec![voice("a"), voice("b")]);
}

#[test]
fn live_stream_creation_opens_the_stream_and_records_a_placeholder() {
    let v = VoiceResource::from_info(voice("s1"));
    let c = create_stream_call(&v, None);
    let (opened, record) = Tts::create_stream_answer(c.request);
    assert_eq!(record, Ok(StreamInput { voice_id: String::new(), options: None }));
    let stream = Tts::create_stream_delivered(Some(opened), record).unwrap();
    assert_eq!(stream.get_status(), StreamStatus::Ready);
}

#[test]
fn failed_live_stream_creation_records_and_delivers_the_failure() {
    let v = VoiceResource::from_info(voice("missing"));
    let (opened, record) = Tts::create_stream_answer(create_stream_call(&v, None).request);
    assert_eq!(record, Err(TtsError::VoiceNotFound("missing".to_string())));
    let delivered = Tts::create_stream_delivered(Some(opened), record);
    assert_eq!(delivered.err(), Some(TtsError::VoiceNotFound("missing".to_string())));
}

#[test]
fn replayed_stream_creation_never_opens_a_stream() {
    let r = Tts::create_stream_delivered(None, Ok(StreamInput { voice_id: String::new(), options: None }));
    assert_eq!(
        r.err(),
        Some(TtsError::UnsupportedOperation("Streaming replay not supported".to_string()))
    );
    let r = Tts::create_voice_conversion_stream_delivered(None, Err(TtsError::RateLimited(9)));
    assert_eq!(r.err(), Some(TtsError::RateLimited(9)));
    let r = Tts::create_voice_conversion_stream_delivered(
        None,
        Ok(StreamInput { voice_id: String::new(), options: None }),
    );
    assert_eq!(
        r.err(),
        Some(TtsError::UnsupportedOperation("Voice conversion replay not supported".to_string()))
    );
}

#[test]
fn live_voice_conversion_stream_creation_opens_the_stream() {
    let v = VoiceResource::from_info(voice("c1"));
    let (opened, record) =
        Tts::create_voice_conversion_stream_answer(create_voice_conversion_stream_call(&v, None).request);
    assert_eq!(record, Ok(StreamInput { voice_id: String::new(), options: None }));
    let stream = Tts::create_voice_conversion_stream_delivered(Some(opened), record).unwrap();
    stream.send_audio(vec![7]).unwrap();
    assert_eq!(stream.receive_converted().unwrap().unwrap().data, vec![7]);
}

#[test]
fn other_live_halves_answer_with_the_provider() {
    let v = VoiceResource::from_info(voice("z"));
    assert_eq!(Tts::get_voice_answer(get_voice_call("g".to_string()).request).unwrap(), voice("g"));
    assert_eq!(
        Tts::search_voices_answer(search_voices_call("s".to_string(), None).request).unwrap(),
        vec![voice("s")]
    );
    assert_eq!(Tts::list_languages_answer(list_languages_call().request).unwrap().len(), 2);
    assert_eq!(
        Tts::get_timing_marks_answer(get_timing_marks_call(text("abc"), &v).request).unwrap()[0].text_offset,
        Some(3)
    );
    assert_eq!(
        Tts::validate_input_answer(validate_input_call(text(""), &v).request).unwrap().warnings,
        vec!["z".to_string()]
    );
    assert_eq!(
        Tts::create_voice_clone_answer(create_voice_clone_call("c".to_string(), vec![], None).request).unwrap(),
        "c-0"
    );
    let params = VoiceDesignParams {
        gender: VoiceGender::Female,
        age_category: AgeCategory::Child,
        accent: "welsh".to_string(),
        personality_traits: vec![],
        reference_voice: None,
    };
    assert_eq!(Tts::design_voice_answer(design_voice_call("d".to_string(), params).request).unwrap(), "d-welsh");
    assert_eq!(
        Tts::convert_voice_answer(convert_voice_call(b"hi".to_vec(), &v, None).request).unwrap().metadata.request_id,
        "z"
    );
    let e = Tts::generate_sound_effect_answer(
        generate_sound_effect_call("wind".to_string(), Some(1.5f32.to_bits()), None).request,
    )
    .unwrap();
    assert_eq!(f32::from_bits(e.metadata.duration_seconds), 1.5);
    let l = Tts::synthesize_long_form_answer(
        synthesize_long_form_call("c".to_string(), &v, "loc".to_string(), None).request,
    )
    .unwrap();
    assert_eq!(l.output_location, "loc");
}
