use synap_forge_llm::config::{Config, DType, KvCache, Model, ModelConfig, ModelType};

#[test]
fn default_llama3_matches_builtin_llama() {
    let c = ModelConfig::default_llama3();
    assert_eq!(c.get_model_name(), "meta-llama/Llama-3.1-8B-Instruct");
    assert_eq!(c.get_model_revision(), Some("0e9e39f249a16976918f6564b8830bc894c89659"));
    assert_eq!(c.get_model_type(), ModelType::Llama);
    assert_eq!(c.get_dtype(), Some(DType::F16));
    let i = ModelConfig::init(ModelType::Llama);
    assert_eq!(i.get_model_name(), c.get_model_name());
    assert_eq!(i.get_model_revision(), c.get_model_revision());
}

#[test]
fn init_builtin_configurations() {
    let m = ModelConfig::init(ModelType::Mistral);
    assert_eq!(m.get_model_name(), "mistralai/Mistral-7B-Instruct-v0.1");
    assert_eq!(m.get_model_revision(), Some("2dcff66eac0c01dc50e4c41eea959968232187fe"));
    let g = ModelConfig::init(ModelType::Gemma);
    assert_eq!(g.get_model_name(), "google/gemma-3-4b-it");
    assert_eq!(g.get_model_revision(), Some("093f9f388b31de276ce2de164bdc2081324b9767"));
    let mg = ModelConfig::init(ModelType::MedGemma);
    assert_eq!(mg.get_model_name(), "google/medgemma-4b-it");
    assert_eq!(mg.get_model_revision(), Some("698f7911b8e0569ff4ebac5d5552f02a9553063c"));
    for t in [ModelType::Llama, ModelType::Mistral, ModelType::Gemma, ModelType::MedGemma] {
        let c = ModelConfig::init(t);
        assert_eq!(c.get_model_type(), t);
        assert_eq!(c.get_dtype(), Some(DType::F16));
    }
}

#[test]
fn from_huggingface_round_trip() {
    let c = ModelConfig::from_huggingface("org/model", ModelType::Gemma, Some("v2"), Some(DType::BF16));
    assert_eq!(c.get_model_name(), "org/model");
    assert_eq!(c.get_model_revision(), Some("v2"));
    assert_eq!(c.get_model_type(), ModelType::Gemma);
    assert_eq!(c.get_dtype(), Some(DType::BF16));
    assert!(matches!(c, ModelConfig::Gemma { .. }));
}

#[test]
fn from_huggingface_revision_defaults_to_main() {
    let c = ModelConfig::from_huggingface("org/other", ModelType::Mistral, None, None);
    assert_eq!(c.get_model_revision(), Some("main"));
    assert_eq!(c.get_dtype(), None);
    assert_eq!(c.get_model_type(), ModelType::Mistral);
}

#[test]
fn gemma_config_reports_its_stored_type() {
    let c = ModelConfig::Gemma {
        model_name: "a".to_string(),
        model_revision: "b".to_string(),
        model_type: ModelType::Llama,
        dtype: None,
    };
    assert_eq!(c.get_model_type(), ModelType::Llama);
}

#[test]
fn config_family_names() {
    let l: Config<u8, u8, u8, u8> = Config::Llama(0);
    let m: Config<u8, u8, u8, u8> = Config::Mistral(0);
    let g: Config<u8, u8, u8, u8> = Config::Gemma(0);
    let mg: Config<u8, u8, u8, u8> = Config::MedGemma(0);
    assert_eq!(l.get_model_name(), "llama");
    assert_eq!(m.get_model_name(), "mistral");
    assert_eq!(g.get_model_name(), "gemma");
    assert_eq!(mg.get_model_name(), "medgemma");
}

#[derive(Clone, Debug, PartialEq)]
struct Cached(Vec<u32>);

impl KvCache for Cached {
    fn clear_kv_cache(&mut self) {
        self.0.clear();
    }
}

#[test]
fn clear_kv_cache_clears_every_in_model_cache() {
    let mut g: Model<Cached, Cached, Cached, Cached> = Model::Gemma(Cached(vec![1, 2]));
    g.clear_kv_cache();
    assert!(matches!(g, Model::Gemma(ref c) if c.0.is_empty()));
    let mut mg: Model<Cached, Cached, Cached, Cached> = Model::MedGemma(Cached(vec![3]));
    mg.clear_kv_cache();
    assert!(matches!(mg, Model::MedGemma(ref c) if c.0.is_empty()));
    let mut l: Model<Cached, Cached, Cached, Cached> = Model::Llama(Cached(vec![4]));
    l.clear_kv_cache();
    assert!(matches!(l, Model::Llama(ref c) if c.0 == vec![4]));
    let mut m: Model<Cached, Cached, Cached, Cached> = Model::Mistral(Cached(vec![5]));
    m.clear_kv_cache();
    assert!(matches!(m, Model::Mistral(ref c) if c.0.is_empty()));
}

#[test]
fn eos_token_and_external_cache() {
    let l: Model<u8, u8, u8, u8> = Model::Llama(0);
    let m: Model<u8, u8, u8, u8> = Model::Mistral(0);
    let g: Model<u8, u8, u8, u8> = Model::Gemma(0);
    let mg: Model<u8, u8, u8, u8> = Model::MedGemma(0);
    assert_eq!(l.eos_token(), "</s>");
    assert_eq!(m.eos_token(), "</s>");
    assert_eq!(g.eos_token(), "<eos>");
    assert_eq!(mg.eos_token(), "<eos>");
    let lc: Config<u8, u8, u8, u8> = Config::Llama(0);
    let gc: Config<u8, u8, u8, u8> = Config::Gemma(0);
    assert!(l.uses_external_cache(&lc));
    assert!(!l.uses_external_cache(&gc));
    assert!(!g.uses_external_cache(&lc));
}
