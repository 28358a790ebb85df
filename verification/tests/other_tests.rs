use synap_forge_llm::audio::{
    classify_field, join_segment_texts, mel_frame_count, needs_language_detection,
    transcription_response, translation_response, AudioFailure, DecodeTask, FieldAction,
    FieldKind, MultipartForm, TimestampGranularity,
};
use synap_forge_llm::config::{DType, ModelConfig, ModelType};
use synap_forge_llm::loading::{plan_model_load, DeviceKind};
use synap_forge_llm::sampling::{choose_sampling, sampler_seed, GenerationSettings, SamplingKind};
use synap_forge_llm::weights::{
    deserialize_weight_map, weight_files_to_fetch, WeightMapError, WeightMapValue,
};

#[test]
fn sampling_choice() {
    assert_eq!(choose_sampling(false, Some(3), true), SamplingKind::ArgMax);
    assert_eq!(choose_sampling(true, None, false), SamplingKind::All);
    assert_eq!(choose_sampling(true, Some(4), false), SamplingKind::TopK { k: 4 });
    assert_eq!(choose_sampling(true, None, true), SamplingKind::TopP);
    assert_eq!(choose_sampling(true, Some(9), true), SamplingKind::TopKThenTopP { k: 9 });
}

#[test]
fn seeds_and_settings() {
    assert_eq!(sampler_seed(42), 42);
    assert_eq!(sampler_seed(-1), u64::MAX);
    let d = GenerationSettings::from_request(None, None);
    assert_eq!(d.seed, 299792458);
    assert_eq!(d.repeat_last_n, 64);
    let s = GenerationSettings::from_request(Some(7), Some(3));
    assert_eq!((s.seed, s.repeat_last_n), (7, 3));
}

#[test]
fn weight_map_collects_distinct_string_values() {
    let v = WeightMapValue::Object(vec![
        Some("a.safetensors".to_string()),
        Some("b.safetensors".to_string()),
        None,
        Some("a.safetensors".to_string()),
    ]);
    let mut files = deserialize_weight_map(v).unwrap();
    files.sort();
    assert_eq!(files, vec!["a.safetensors".to_string(), "b.safetensors".to_string()]);
    let empty = deserialize_weight_map(WeightMapValue::Object(vec![])).unwrap();
    assert!(empty.is_empty());
}

#[test]
fn weight_map_must_be_an_object() {
    let e = deserialize_weight_map(WeightMapValue::Other).unwrap_err();
    assert_eq!(e, WeightMapError::NotAnObject);
    assert_eq!(e.message(), "Expected an object for weight_map");
}

#[test]
fn weight_file_fallback() {
    let listed = weight_files_to_fetch(Some(vec!["x".to_string(), "y".to_string()]));
    assert_eq!(listed, vec!["x".to_string(), "y".to_string()]);
    assert_eq!(weight_files_to_fetch(None), vec!["model.safetensors".to_string()]);
}

#[test]
fn load_plan_defaults() {
    let p = plan_model_load(None);
    assert_eq!(p.repo_id, "meta-llama/Llama-3.1-8B-Instruct");
    assert_eq!(p.revision, "0e9e39f249a16976918f6564b8830bc894c89659");
    assert_eq!(p.dtype, DType::F16);
    assert_eq!(p.model_type, ModelType::Llama);
    let q = plan_model_load(Some(ModelConfig::from_huggingface("o/m", ModelType::MedGemma, None, None)));
    assert_eq!(q.repo_id, "o/m");
    assert_eq!(q.revision, "main");
    assert_eq!(q.dtype, DType::F16);
    assert_eq!(q.model_type, ModelType::MedGemma);
    let r = plan_model_load(Some(ModelConfig::from_huggingface("o/m", ModelType::Mistral, Some("r1"), Some(DType::F32))));
    assert_eq!(r.dtype, DType::F32);
    assert_eq!(r.revision, "r1");
}

#[test]
fn device_choice() {
    assert_eq!(DeviceKind::preferred(true, true), DeviceKind::Cuda);
    assert_eq!(DeviceKind::preferred(false, true), DeviceKind::Metal);
    assert_eq!(DeviceKind::preferred(false, false), DeviceKind::Cpu);
    assert_eq!(DeviceKind::for_speech(true), DeviceKind::Cuda);
    assert_eq!(DeviceKind::for_speech(false), DeviceKind::Cpu);
}

#[test]
fn multipart_form_fields() {
    assert_eq!(classify_field(None), FieldKind::Unnamed);
    assert_eq!(classify_field(Some("file".to_string())), FieldKind::File);
    assert_eq!(classify_field(Some("model".to_string())), FieldKind::Model);
    assert_eq!(classify_field(Some("language".to_string())), FieldKind::Other);
    let mut form = MultipartForm::new();
    assert_eq!(form.model, "decode_whispers-1");
    match form.accept_field(FieldKind::File, vec![1, 2, 3]).unwrap() {
        FieldAction::WriteToFile(d) => assert_eq!(d, vec![1, 2, 3]),
        FieldAction::Done => panic!("file contents must be written"),
    }
    assert!(matches!(form.accept_field(FieldKind::Other, vec![9]).unwrap(), FieldAction::Done));
    assert!(matches!(form.accept_field(FieldKind::Model, b"whisper-tiny".to_vec()).unwrap(), FieldAction::Done));
    assert_eq!(form.model, "whisper-tiny");
}

#[test]
fn multipart_model_must_be_utf8() {
    let mut form = MultipartForm::new();
    let err = form.accept_field(FieldKind::Model, vec![0xff, 0xfe]).unwrap_err();
    assert_eq!(err.failure, AudioFailure::ModelNotUtf8);
    assert_eq!(err.status_code(), 400);
    assert_eq!(err.detail, String::from_utf8(vec![0xff, 0xfe]).unwrap_err().to_string());
    assert_eq!(form.model, "decode_whispers-1");
}

#[test]
fn failure_answers() {
    assert_eq!(AudioFailure::AudioDecode.status_code(), 400);
    assert_eq!(AudioFailure::Decoding.status_code(), 500);
    assert_eq!(AudioFailure::TempFile.status_code(), 500);
    assert_eq!(AudioFailure::Decoding.message_prefix(DecodeTask::Transcribe), "Failed to transcribe audio: ");
    assert_eq!(AudioFailure::Decoding.message_prefix(DecodeTask::Translate), "Failed to run translation: ");
    assert_eq!(AudioFailure::AudioDecode.message_prefix(DecodeTask::Translate), "Failed to decode audio: ");
    assert!(AudioFailure::FileWrite.json_body());
    assert!(!AudioFailure::MelTensor.json_body());
    let e = synap_forge_llm::audio::AudioError { failure: AudioFailure::MelTensor, detail: "shape".to_string() };
    assert_eq!(e.message(DecodeTask::Transcribe), "Failed to create mel tensor: shape");
}

#[test]
fn mel_frames_and_language_detection() {
    assert_eq!(mel_frame_count(240_000, 80), 3000);
    assert_eq!(mel_frame_count(81, 80), 1);
    assert!(needs_language_detection(DecodeTask::Translate, "x"));
    assert!(needs_language_detection(DecodeTask::Transcribe, ""));
    assert!(!needs_language_detection(DecodeTask::Transcribe, "decode_whispers-1"));
}

#[test]
fn segment_texts_are_joined() {
    let texts = vec![" Hello".to_string(), " world".to_string(), "!".to_string()];
    assert_eq!(join_segment_texts(&texts), " Hello world!");
    assert_eq!(join_segment_texts(&vec![]), "");
    assert_eq!(transcription_response(&texts).text, " Hello world!");
    assert_eq!(translation_response(&texts).text, " Hello world!");
    assert_ne!(TimestampGranularity::Word, TimestampGranularity::Segment);
}

#[test]
fn multipart_model_name_decodes_multibyte_utf8() {
    let mut form = MultipartForm::new();
    let name = "whisper-große-модель";
    assert!(matches!(form.accept_field(FieldKind::Model, name.as_bytes().to_vec()), Ok(FieldAction::Done)));
    assert_eq!(form.model, name);
    let err = form.accept_field(FieldKind::Model, vec![b'a', 0xc3]).unwrap_err();
    assert_eq!(err.failure, AudioFailure::ModelNotUtf8);
    assert_eq!(form.model, name);
}
