//! Model catalogue: the models the assistant can run and their download
//! and memory footprints.

use vstd::prelude::*;

verus! {

/// Available models for inference.
#[derive(Clone, Copy, Debug, PartialEq, Eq, Structural)]
pub enum ModelType {
    WhisperTiny,
    WhisperBase,
    WhisperSmall,
    Phi2,
    TinyLlama,
}

/// Repository path each model is fetched from.
pub open spec fn spec_model_name(m: ModelType) -> Seq<char> {
    match m {
        ModelType::WhisperTiny => "openai/whisper-tiny.en"@,
        ModelType::WhisperBase => "openai/whisper-base.en"@,
        ModelType::WhisperSmall => "openai/whisper-small"@,
        ModelType::Phi2 => "microsoft/phi-2"@,
        ModelType::TinyLlama => "TinyLlama/TinyLlama-1.1B-Chat-v1.0"@,
    }
}

/// Estimated download size of each model, in megabytes.
pub open spec fn spec_size_mb(m: ModelType) -> u32 {
    match m {
        ModelType::WhisperTiny => 75,
        ModelType::WhisperBase => 142,
        ModelType::WhisperSmall => 466,
        ModelType::Phi2 => 1500,
        ModelType::TinyLlama => 600,
    }
}

/// Estimated RAM needed to run each model, in megabytes.
pub open spec fn spec_ram_mb(m: ModelType) -> u32 {
    match m {
        ModelType::WhisperTiny => 390,
        ModelType::WhisperBase => 500,
        ModelType::WhisperSmall => 1000,
        ModelType::Phi2 => 2000,
        ModelType::TinyLlama => 800,
    }
}

impl ModelType {
    /// Get the model name for downloading.
    pub fn model_name(&self) -> (r: &'static str)
        ensures
            r@ == spec_model_name(*self),
    {
        match self {
            ModelType::WhisperTiny => "openai/whisper-tiny.en",
            ModelType::WhisperBase => "openai/whisper-base.en",
            ModelType::WhisperSmall => "openai/whisper-small",
            ModelType::Phi2 => "microsoft/phi-2",
            ModelType::TinyLlama => "TinyLlama/TinyLlama-1.1B-Chat-v1.0",
        }
    }

    /// Get estimated model size in MB.
    pub fn size_mb(&self) -> (r: u32)
        ensures
            r == spec_size_mb(*self),
    {
        match self {
            ModelType::WhisperTiny => 75,
            ModelType::WhisperBase => 142,
            ModelType::WhisperSmall => 466,
            ModelType::Phi2 => 1500,
            ModelType::TinyLlama => 600,
        }
    }

    /// Get estimated RAM usage in MB.
    pub fn ram_mb(&self) -> (r: u32)
        ensures
            r == spec_ram_mb(*self),
    {
        match self {
            ModelType::WhisperTiny => 390,
            ModelType::WhisperBase => 500,
            ModelType::WhisperSmall => 1000,
            ModelType::Phi2 => 2000,
            ModelType::TinyLlama => 800,
        }
    }
}

} // verus!
