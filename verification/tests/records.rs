use golem_tts::guest::{StreamRequest, SynthesisRequest};
use golem_tts::records::{
    batch_records, batch_requests, requests_of_records, stream_request, synthesis_request,
    SynthesizeInput,
};
use golem_tts::types::{AudioFormat, SynthesisOptions, TextInput, TextType, VoiceSettings};

fn text(content: &str) -> TextInput {
    TextInput {
        content: content.to_string(),
        text_type: TextType::Plain,
        language: Some("en".to_string()),
    }
}

fn options() -> Option<SynthesisOptions> {
    Some(SynthesisOptions {
        audio_format: Some(AudioFormat::Mp3),
        sample_rate: Some(22050),
        voice_settings: Some(VoiceSettings {
            speed: Some(1.25f32.to_bits()),
            pitch: None,
            volume: None,
            stability: Some(0.5f32.to_bits()),
            similarity: None,
            style: None,
        }),
        enable_timing: Some(true),
        enable_word_timing: None,
        seed: Some(7),
        model_version: Some("v2".to_string()),
    })
}

#[test]
fn synthesis_request_carries_its_arguments() {
    let r = synthesis_request(text("hi"), "v1".to_string(), options());
    assert_eq!(
        r,
        SynthesisRequest { input: text("hi"), voice_id: "v1".to_string(), options: options() }
    );
}

#[test]
fn stream_request_carries_its_arguments() {
    let r = stream_request("v1".to_string(), None);
    assert_eq!(r, StreamRequest { voice_id: "v1".to_string(), options: None });
}

#[test]
fn batch_requests_one_per_input_in_order() {
    let inputs = vec![text("one"), text("two"), text("three")];
    let requests = batch_requests(inputs.clone(), &"voice-9".to_string(), &options());
    assert_eq!(requests.len(), 3);
    for (i, r) in requests.iter().enumerate() {
        assert_eq!(r.input, inputs[i]);
        assert_eq!(r.voice_id, "voice-9");
        assert_eq!(r.options, options());
    }
}

#[test]
fn batch_requests_of_no_input_is_empty() {
    assert!(batch_requests(vec![], &"v".to_string(), &None).is_empty());
}

#[test]
fn batch_records_one_per_input_in_order() {
    let inputs = vec![text("a"), text("b")];
    let records = batch_records(inputs.clone(), &"v2".to_string(), &None);
    assert_eq!(
        records,
        vec![
            SynthesizeInput { input: text("a"), voice_id: "v2".to_string(), options: None },
            SynthesizeInput { input: text("b"), voice_id: "v2".to_string(), options: None },
        ]
    );
}

#[test]
fn requests_of_records_match_direct_batch_requests() {
    let inputs = vec![text("x"), text("y"), text("z")];
    let records = batch_records(inputs.clone(), &"v3".to_string(), &options());
    let from_records = requests_of_records(&records);
    let direct = batch_requests(inputs, &"v3".to_string(), &options());
    assert_eq!(from_records, direct);
}
