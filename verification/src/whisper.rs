//! Whisper model configurations.
//!
//! The encoder/decoder networks themselves run outside the library; these
//! records fix the architecture hyper-parameters per model size.

use vstd::prelude::*;

verus! {

/// Configuration for Whisper model.
#[derive(Debug, Clone, PartialEq, Eq, Structural)]
pub struct WhisperConfig {
    pub vocab_size: usize,
    pub num_mel_bins: usize,
    pub encoder_layers: usize,
    pub encoder_attention_heads: usize,
    pub encoder_units: usize,
    pub decoder_layers: usize,
    pub decoder_attention_heads: usize,
    pub decoder_units: usize,
}

impl WhisperConfig {
    /// Tiny Whisper model configuration.
    pub fn tiny() -> (r: Self)
        ensures
            r == (WhisperConfig {
                vocab_size: 51865,
                num_mel_bins: 80,
                encoder_layers: 4,
                encoder_attention_heads: 6,
                encoder_units: 384,
                decoder_layers: 4,
                decoder_attention_heads: 6,
                decoder_units: 384,
            }),
    {
        WhisperConfig {
            vocab_size: 51865,
            num_mel_bins: 80,
            encoder_layers: 4,
            encoder_attention_heads: 6,
            encoder_units: 384,
            decoder_layers: 4,
            decoder_attention_heads: 6,
            decoder_units: 384,
        }
    }

    /// Base Whisper model configuration.
    pub fn base() -> (r: Self)
        ensures
            r == (WhisperConfig {
                vocab_size: 51865,
                num_mel_bins: 80,
                encoder_layers: 6,
                encoder_attention_heads: 8,
                encoder_units: 512,
                decoder_layers: 6,
                decoder_attention_heads: 8,
                decoder_units: 512,
            }),
    {
        WhisperConfig {
            vocab_size: 51865,
            num_mel_bins: 80,
            encoder_layers: 6,
            encoder_attention_heads: 8,
            encoder_units: 512,
            decoder_layers: 6,
            decoder_attention_heads: 8,
            decoder_units: 512,
        }
    }
}

} // verus!
