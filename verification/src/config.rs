//! The run configuration: where documents are read, which model provider
//! turns them into dialogue, and where audio artifacts are written. Loading
//! it from the environment or a file is the driver's job; the library only
//! holds and interprets the values.

use vstd::prelude::*;
use vstd::string::StringExecFns;

verus! {

/// Where the source documents live.
pub struct InputConfig {
    pub docs_path: String,
}

/// Which transcript provider a run uses: a local completion endpoint or a
/// remote chat-completion endpoint, each with its model identifier.
#[derive(Debug, Clone)]
pub enum ModelType {
    Ollama(String),
    OpenAI(String),
}

impl ModelType {
    /// The model identifier, whichever provider carries it.
    pub fn model_name(&self) -> (r: String)
        ensures
            r@ == (match self {
                ModelType::Ollama(m) => m@,
                ModelType::OpenAI(m) => m@,
            }),
    {
        match self {
            ModelType::Ollama(m) => m.clone(),
            ModelType::OpenAI(m) => m.clone(),
        }
    }
}

/// The model provider selection and its credentials.
pub struct ModelConfig {
    pub model_type: ModelType,
    pub openai_api_key: Option<String>,
    pub ollama_base_url: Option<String>,
}

/// Where audio artifacts are written.
pub struct OutputConfig {
    pub audio_path: String,
}

/// One run's whole configuration.
pub struct Config {
    pub input: InputConfig,
    pub model: ModelConfig,
    pub output: OutputConfig,
}

} // verus!
