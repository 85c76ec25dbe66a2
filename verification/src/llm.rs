//! Language-model configurations.
//!
//! The networks themselves run outside the library; these records fix the
//! architecture hyper-parameters per model.

use vstd::prelude::*;

verus! {

/// Configuration for LLM model.
#[derive(Debug, Clone, PartialEq, Eq, Structural)]
pub struct LlmConfig {
    pub vocab_size: usize,
    pub hidden_size: usize,
    pub num_layers: usize,
    pub num_attention_heads: usize,
    pub intermediate_size: usize,
    pub max_position_embeddings: usize,
}

impl LlmConfig {
    /// Phi-2 model configuration.
    pub fn phi_2() -> (r: Self)
        ensures
            r == (LlmConfig {
                vocab_size: 50257,
                hidden_size: 2560,
                num_layers: 32,
                num_attention_heads: 32,
                intermediate_size: 10240,
                max_position_embeddings: 2048,
            }),
    {
        LlmConfig {
            vocab_size: 50257,
            hidden_size: 2560,
            num_layers: 32,
            num_attention_heads: 32,
            intermediate_size: 10240,
            max_position_embeddings: 2048,
        }
    }

    /// TinyLlama model configuration.
    pub fn tiny_llama() -> (r: Self)
        ensures
            r == (LlmConfig {
                vocab_size: 32000,
                hidden_size: 2048,
                num_layers: 22,
                num_attention_heads: 32,
                intermediate_size: 5632,
                max_position_embeddings: 2048,
            }),
    {
        LlmConfig {
            vocab_size: 32000,
            hidden_size: 2048,
            num_layers: 22,
            num_attention_heads: 32,
            intermediate_size: 5632,
            max_position_embeddings: 2048,
        }
    }
}

} // verus!
