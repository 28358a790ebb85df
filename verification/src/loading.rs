//! What loading a model fetches and how: repository, revision, element type,
//! architecture, files, and the device to compute on.
use vstd::prelude::*;
use crate::config::{spec_init, DType, ModelConfig, ModelConfigView, ModelType};

verus! {

/// Name of the model's architecture parameters in its repository.
pub const CONFIG_FILE: &'static str = "config.json";

/// Name of the model's tokenizer in its repository.
pub const TOKENIZER_FILE: &'static str = "tokenizer.json";

/// The resolved parameters of a model load.
#[derive(Clone, Debug)]
pub struct ModelLoadPlan {
    /// The configuration that is loaded.
    pub config: ModelConfig,
    /// Repository to fetch from.
    pub repo_id: String,
    /// Revision to fetch.
    pub revision: String,
    /// Element type of the weights.
    pub dtype: DType,
    /// Architecture to build.
    pub model_type: ModelType,
}

/// The configuration a load uses: the one given, or the built-in Llama 3.1.
pub open spec fn spec_resolved_config(model_config: Option<ModelConfigView>) -> ModelConfigView {
    match model_config {
        Some(c) => c,
        None => spec_init(ModelType::Llama),
    }
}

/// Resolves a load: the configuration defaults to the built-in Llama 3.1, the
/// revision is the configuration's, and the element type defaults to half
/// precision.
pub fn plan_model_load(model_config: Option<ModelConfig>) -> (res: ModelLoadPlan)
    ensures
        ({
            let c = spec_resolved_config(
                match model_config {
                    Some(m) => Some(m@),
                    None => None,
                },
            );
            &&& res.config@ == c
            &&& res.repo_id@ == c.model_name
            &&& res.revision@ == c.model_revision
            &&& res.dtype == match c.dtype {
                Some(d) => d,
                None => DType::F16,
            }
            &&& res.model_type == c.model_type
        }),
        model_config matches Some(m) ==> {
            &&& res.config@ == m@
            &&& res.repo_id@ == m@.model_name
            &&& res.revision@ == m@.model_revision
            &&& res.model_type == m@.model_type
        },
        model_config is None ==> res.config@ == spec_init(ModelType::Llama),
{
    let config = match model_config {
        Some(c) => c,
        None => ModelConfig::default_llama3(),
    };
    let repo_id = config.get_model_name().to_owned();
    let revision: &str = match config.get_model_revision() {
        Some(r) => r,
        None => "main",
    };
    let revision = revision.to_owned();
    let dtype = match config.get_dtype() {
        Some(d) => d,
        None => DType::F16,
    };
    let model_type = config.get_model_type();
    ModelLoadPlan { config, repo_id, revision, dtype, model_type }
}

/// A given configuration is loaded as it is, whatever its family; the
/// built-in Llama 3.1 stands in only when none is given.
pub proof fn lemma_given_config_is_loaded(c: ModelConfigView)
    ensures
        spec_resolved_config(Some(c)) == c,
        spec_resolved_config(None) == spec_init(ModelType::Llama),
{
}

/// A kind of compute device.
#[derive(Clone, Copy, Debug, PartialEq, Eq, Structural)]
pub enum DeviceKind {
    Cuda,
    Metal,
    Cpu,
}

impl DeviceKind {
    /// The device a language model runs on: the first GPU if it could be
    /// opened, else the Metal device if it could be opened, else the CPU.
    pub fn preferred(cuda_opened: bool, metal_opened: bool) -> (res: DeviceKind)
        ensures
            res == if cuda_opened {
                DeviceKind::Cuda
            } else if metal_opened {
                DeviceKind::Metal
            } else {
                DeviceKind::Cpu
            },
    {
        if cuda_opened {
            DeviceKind::Cuda
        } else if metal_opened {
            DeviceKind::Metal
        } else {
            DeviceKind::Cpu
        }
    }

    /// The device the speech model runs on: the first GPU when CUDA is
    /// available (failing to open it is an error), else the CPU.
    pub fn for_speech(cuda_available: bool) -> (res: DeviceKind)
        ensures
            res == if cuda_available {
                DeviceKind::Cuda
            } else {
                DeviceKind::Cpu
            },
    {
        if cuda_available {
            DeviceKind::Cuda
        } else {
            DeviceKind::Cpu
        }
    }
}

} // verus!
