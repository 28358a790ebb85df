//! Model families, element types and the configuration a model is loaded with.
use vstd::prelude::*;

verus! {

/// The model families the server can load.
#[derive(Clone, Copy, Debug, PartialEq, Eq, Structural)]
pub enum ModelType {
    Llama,
    Mistral,
    Gemma,
    MedGemma,
}

/// Element type of the weights and activations, one variant per element type
/// that the tensor library knows.
#[derive(Clone, Copy, Debug, PartialEq, Eq, Structural)]
pub enum DType {
    U8,
    U32,
    I16,
    I32,
    I64,
    BF16,
    F16,
    F32,
    F64,
    F8E4M3,
    F6E2M3,
    F6E3M2,
    F4,
    F8E8M0,
}

/// Which model to fetch, at which revision, and with which element type.
#[derive(Clone, Debug)]
pub enum ModelConfig {
    Llama { model_name: String, model_revision: String, dtype: Option<DType> },
    Mistral { model_name: String, model_revision: String, dtype: Option<DType> },
    Gemma { model_name: String, model_revision: String, model_type: ModelType, dtype: Option<DType> },
    MedGemma { model_name: String, model_revision: String, dtype: Option<DType> },
}

/// Mathematical view of a [`ModelConfig`]: `family` is the variant, `model_type`
/// is what [`ModelConfig::get_model_type`] reports.
pub struct ModelConfigView {
    pub family: ModelType,
    pub model_name: Seq<char>,
    pub model_revision: Seq<char>,
    pub model_type: ModelType,
    pub dtype: Option<DType>,
}

impl View for ModelConfig {
    type V = ModelConfigView;

    open spec fn view(&self) -> ModelConfigView {
        match self {
            ModelConfig::Llama { model_name, model_revision, dtype } => ModelConfigView {
                family: ModelType::Llama,
                model_name: model_name@,
                model_revision: model_revision@,
                model_type: ModelType::Llama,
                dtype: *dtype,
            },
            ModelConfig::Mistral { model_name, model_revision, dtype } => ModelConfigView {
                family: ModelType::Mistral,
                model_name: model_name@,
                model_revision: model_revision@,
                model_type: ModelType::Mistral,
                dtype: *dtype,
            },
            ModelConfig::Gemma { model_name, model_revision, model_type, dtype } => ModelConfigView {
                family: ModelType::Gemma,
                model_name: model_name@,
                model_revision: model_revision@,
                model_type: *model_type,
                dtype: *dtype,
            },
            ModelConfig::MedGemma { model_name, model_revision, dtype } => ModelConfigView {
                family: ModelType::MedGemma,
                model_name: model_name@,
                model_revision: model_revision@,
                model_type: ModelType::MedGemma,
                dtype: *dtype,
            },
        }
    }
}

/// The repository name of the built-in configuration of each family.
pub open spec fn spec_default_name(t: ModelType) -> Seq<char> {
    match t {
        ModelType::Llama => "meta-llama/Llama-3.1-8B-Instruct"@,
        ModelType::Mistral => "mistralai/Mistral-7B-Instruct-v0.1"@,
        ModelType::Gemma => "google/gemma-3-4b-it"@,
        ModelType::MedGemma => "google/medgemma-4b-it"@,
    }
}

/// The pinned revision of the built-in configuration of each family.
pub open spec fn spec_default_revision(t: ModelType) -> Seq<char> {
    match t {
        ModelType::Llama => "0e9e39f249a16976918f6564b8830bc894c89659"@,
        ModelType::Mistral => "2dcff66eac0c01dc50e4c41eea959968232187fe"@,
        ModelType::Gemma => "093f9f388b31de276ce2de164bdc2081324b9767"@,
        ModelType::MedGemma => "698f7911b8e0569ff4ebac5d5552f02a9553063c"@,
    }
}

/// The built-in configuration of a family: pinned name and revision, half precision.
pub open spec fn spec_init(t: ModelType) -> ModelConfigView {
    ModelConfigView {
        family: t,
        model_name: spec_default_name(t),
        model_revision: spec_default_revision(t),
        model_type: t,
        dtype: Some(DType::F16),
    }
}

/// A configuration built from a repository name: the revision defaults to `main`.
pub open spec fn spec_from_huggingface(
    model_name: Seq<char>,
    model_type: ModelType,
    model_revision: Option<Seq<char>>,
    dtype: Option<DType>,
) -> ModelConfigView {
    ModelConfigView {
        family: model_type,
        model_name,
        model_revision: match model_revision {
            Some(r) => r,
            None => "main"@,
        },
        model_type,
        dtype,
    }
}

impl ModelConfig {
    /// The built-in Llama 3.1 configuration.
    pub fn default_llama3() -> (res: Self)
        ensures
            res@ == spec_init(ModelType::Llama),
    {
        ModelConfig::Llama {
            model_name: "meta-llama/Llama-3.1-8B-Instruct".to_owned(),
            model_revision: "0e9e39f249a16976918f6564b8830bc894c89659".to_owned(),
            dtype: Some(DType::F16),
        }
    }

    /// The built-in configuration of the given family.
    pub fn init(model_type: ModelType) -> (res: Self)
        ensures
            res@ == spec_init(model_type),
    {
        match model_type {
            ModelType::Llama => ModelConfig::Llama {
                model_name: "meta-llama/Llama-3.1-8B-Instruct".to_owned(),
                model_revision: "0e9e39f249a16976918f6564b8830bc894c89659".to_owned(),
                dtype: Some(DType::F16),
            },
            ModelType::Mistral => ModelConfig::Mistral {
                model_name: "mistralai/Mistral-7B-Instruct-v0.1".to_owned(),
                model_revision: "2dcff66eac0c01dc50e4c41eea959968232187fe".to_owned(),
                dtype: Some(DType::F16),
            },
            ModelType::Gemma => ModelConfig::Gemma {
                model_name: "google/gemma-3-4b-it".to_owned(),
                model_revision: "093f9f388b31de276ce2de164bdc2081324b9767".to_owned(),
                model_type: ModelType::Gemma,
                dtype: Some(DType::F16),
            },
            ModelType::MedGemma => ModelConfig::MedGemma {
                model_name: "google/medgemma-4b-it".to_owned(),
                model_revision: "698f7911b8e0569ff4ebac5d5552f02a9553063c".to_owned(),
                dtype: Some(DType::F16),
            },
        }
    }

    /// A configuration for any repository of the given family; the revision
    /// defaults to `main`.
    pub fn from_huggingface(
        model_name: &str,
        model_type: ModelType,
        model_revision: Option<&str>,
        dtype: Option<DType>,
    ) -> (res: Self)
        ensures
            res@ == spec_from_huggingface(
                model_name@,
                model_type,
                match model_revision {
                    Some(r) => Some(r@),
                    None => None,
                },
                dtype,
            ),
    {
        let revision: &str = match model_revision {
            Some(r) => r,
            None => "main",
        };
        match model_type {
            ModelType::Llama => ModelConfig::Llama {
                model_name: model_name.to_owned(),
                model_revision: revision.to_owned(),
                dtype,
            },
            ModelType::Mistral => ModelConfig::Mistral {
                model_name: model_name.to_owned(),
                model_revision: revision.to_owned(),
                dtype,
            },
            ModelType::Gemma => ModelConfig::Gemma {
                model_name: model_name.to_owned(),
                model_revision: revision.to_owned(),
                model_type,
                dtype,
            },
            ModelType::MedGemma => ModelConfig::MedGemma {
                model_name: model_name.to_owned(),
                model_revision: revision.to_owned(),
                dtype,
            },
        }
    }

    /// The repository name.
    pub fn get_model_name(&self) -> (res: &str)
        ensures
            res@ == self@.model_name,
    {
        match self {
            ModelConfig::Llama { model_name, .. } => model_name.as_str(),
            ModelConfig::Mistral { model_name, .. } => model_name.as_str(),
            ModelConfig::Gemma { model_name, .. } => model_name.as_str(),
            ModelConfig::MedGemma { model_name, .. } => model_name.as_str(),
        }
    }

    /// The revision; every configuration has one.
    pub fn get_model_revision(&self) -> (res: Option<&str>)
        ensures
            res matches Some(r) && r@ == self@.model_revision,
    {
        match self {
            ModelConfig::Llama { model_revision, .. } => Some(model_revision.as_str()),
            ModelConfig::Mistral { model_revision, .. } => Some(model_revision.as_str()),
            ModelConfig::Gemma { model_revision, .. } => Some(model_revision.as_str()),
            ModelConfig::MedGemma { model_revision, .. } => Some(model_revision.as_str()),
        }
    }

    /// The family; a Gemma configuration reports the type it was built with.
    pub fn get_model_type(&self) -> (res: ModelType)
        ensures
            res == self@.model_type,
    {
        match self {
            ModelConfig::Llama { .. } => ModelType::Llama,
            ModelConfig::Mistral { .. } => ModelType::Mistral,
            ModelConfig::Gemma { model_type, .. } => *model_type,
            ModelConfig::MedGemma { .. } => ModelType::MedGemma,
        }
    }

    /// The requested element type, if any.
    pub fn get_dtype(&self) -> (res: Option<DType>)
        ensures
            res == self@.dtype,
    {
        match self {
            ModelConfig::Llama { dtype, .. } => *dtype,
            ModelConfig::Mistral { dtype, .. } => *dtype,
            ModelConfig::Gemma { dtype, .. } => *dtype,
            ModelConfig::MedGemma { dtype, .. } => *dtype,
        }
    }
}


/// The name of a family, as the server reports it.
pub open spec fn spec_family_name(t: ModelType) -> Seq<char> {
    match t {
        ModelType::Llama => "llama"@,
        ModelType::Mistral => "mistral"@,
        ModelType::Gemma => "gemma"@,
        ModelType::MedGemma => "medgemma"@,
    }
}

/// The architecture parameters of a loaded model, one variant per family; the
/// parameter types are those of the tensor library.
#[derive(Clone)]
pub enum Config<L, M, G, MG> {
    Llama(L),
    Mistral(M),
    Gemma(G),
    MedGemma(MG),
}

impl<L, M, G, MG> Config<L, M, G, MG> {
    /// The family of this configuration.
    pub open spec fn family(&self) -> ModelType {
        match self {
            Config::Llama(_) => ModelType::Llama,
            Config::Mistral(_) => ModelType::Mistral,
            Config::Gemma(_) => ModelType::Gemma,
            Config::MedGemma(_) => ModelType::MedGemma,
        }
    }

    /// The family's name.
    pub fn get_model_name(&self) -> (res: &'static str)
        ensures
            res@ == spec_family_name(self.family()),
    {
        match self {
            Config::Llama(_) => "llama",
            Config::Mistral(_) => "mistral",
            Config::Gemma(_) => "gemma",
            Config::MedGemma(_) => "medgemma",
        }
    }
}

/// A model whose attention cache lives inside it and can be emptied.
pub trait KvCache {
    fn clear_kv_cache(&mut self);
}

/// A loaded model, one variant per family; the model types are those of the
/// tensor library.
#[derive(Clone)]
pub enum Model<L, M, G, MG> {
    Llama(L),
    Mistral(M),
    Gemma(G),
    MedGemma(MG),
}

/// The end-of-sequence token text of each family's tokenizer.
pub open spec fn spec_eos_token(t: ModelType) -> Seq<char> {
    match t {
        ModelType::Llama => "</s>"@,
        ModelType::Mistral => "</s>"@,
        ModelType::Gemma => "<eos>"@,
        ModelType::MedGemma => "<eos>"@,
    }
}

impl<L, M, G, MG> Model<L, M, G, MG> {
    /// The family of this model.
    pub open spec fn family(&self) -> ModelType {
        match self {
            Model::Llama(_) => ModelType::Llama,
            Model::Mistral(_) => ModelType::Mistral,
            Model::Gemma(_) => ModelType::Gemma,
            Model::MedGemma(_) => ModelType::MedGemma,
        }
    }

    /// The text of the token that ends generation for this model.
    pub fn eos_token(&self) -> (res: &'static str)
        ensures
            res@ == spec_eos_token(self.family()),
    {
        match self {
            Model::Llama(_) => "</s>",
            Model::Mistral(_) => "</s>",
            Model::Gemma(_) => "<eos>",
            Model::MedGemma(_) => "<eos>",
        }
    }

    /// A Llama model keeps its attention cache outside the model: generation
    /// makes one exactly when both the model and its configuration are Llama.
    pub fn uses_external_cache<CL, CM, CG, CMG>(&self, config: &Config<CL, CM, CG, CMG>) -> (res: bool)
        ensures
            res == (self.family() == ModelType::Llama && config.family() == ModelType::Llama),
    {
        match (self, config) {
            (Model::Llama(_), Config::Llama(_)) => true,
            _ => false,
        }
    }
}

impl<L, M: KvCache, G: KvCache, MG: KvCache> Model<L, M, G, MG> {
    /// Empties the attention cache of models that hold one (Mistral, Gemma,
    /// MedGemma): their model is changed exactly as one call of its own
    /// `clear_kv_cache` changes it. A Llama model keeps no cache of its own
    /// (generation gives it a fresh one) and is left as it is.
    pub fn clear_kv_cache(&mut self)
        ensures
            final(self).family() == old(self).family(),
            old(self).family() == ModelType::Llama ==> *final(self) == *old(self),
            match (*old(self), *final(self)) {
                (Model::Mistral(before), Model::Mistral(after)) => exists|r: &mut M|
                    *r == before && *final(r) == after && #[trigger] call_ensures(
                        M::clear_kv_cache,
                        (r,),
                        (),
                    ),
                (Model::Gemma(before), Model::Gemma(after)) => exists|r: &mut G|
                    *r == before && *final(r) == after && #[trigger] call_ensures(
                        G::clear_kv_cache,
                        (r,),
                        (),
                    ),
                (Model::MedGemma(before), Model::MedGemma(after)) => exists|r: &mut MG|
                    *r == before && *final(r) == after && #[trigger] call_ensures(
                        MG::clear_kv_cache,
                        (r,),
                        (),
                    ),
                _ => true,
            },
    {
        match self {
            Model::Llama(_) => {},
            Model::Mistral(model) => model.clear_kv_cache(),
            Model::Gemma(model) => model.clear_kv_cache(),
            Model::MedGemma(model) => model.clear_kv_cache(),
        }
    }
}

/// Every built-in configuration is of the family it was asked for, reports
/// that family as its type, and asks for half precision.
pub proof fn lemma_builtin_config(t: ModelType)
    ensures
        spec_init(t).family == t,
        spec_init(t).model_type == t,
        spec_init(t).dtype == Some(DType::F16),
{
}

/// A configuration built from a repository reads back as built: its name,
/// its type, its element type, and its revision (`main` when none was given).
pub proof fn lemma_from_huggingface_round_trip(
    model_name: Seq<char>,
    model_type: ModelType,
    model_revision: Option<Seq<char>>,
    dtype: Option<DType>,
)
    ensures
        ({
            let v = spec_from_huggingface(model_name, model_type, model_revision, dtype);
            &&& v.family == model_type
            &&& v.model_name == model_name
            &&& v.model_type == model_type
            &&& v.dtype == dtype
            &&& model_revision matches Some(r) ==> v.model_revision == r
            &&& model_revision is None ==> v.model_revision == "main"@
        }),
{
}

/// The reported name tells the families apart.
pub proof fn lemma_family_names_distinct(a: ModelType, b: ModelType)
    requires
        a != b,
    ensures
        spec_family_name(a) != spec_family_name(b),
{
    reveal_strlit("llama");
    reveal_strlit("mistral");
    reveal_strlit("gemma");
    reveal_strlit("medgemma");
    assert("llama"@[0] != "mistral"@[0]);
    assert("llama"@[0] != "gemma"@[0]);
    assert("llama"@[0] != "medgemma"@[0]);
    assert("mistral"@[1] != "medgemma"@[1]);
    assert("gemma"@[0] != "mistral"@[0]);
    assert("gemma"@[0] != "medgemma"@[0]);
}

} // verus!
