//! Tests for the model catalogue, the architecture configurations and the
//! inference-engine state.

use jarvis::inference::InferenceEngine;
use jarvis::llm::LlmConfig;
use jarvis::models::ModelType;
use jarvis::whisper::WhisperConfig;

#[test]
fn test_inference_engine_creation() {
    let engine = InferenceEngine::new();
    assert!(!engine.is_loaded());
    assert!(engine.current_model().is_none());
}

#[test]
fn load_model_records_the_model() {
    let mut engine = InferenceEngine::new();
    assert!(engine.load_model(ModelType::WhisperTiny).is_ok());
    assert!(engine.is_loaded());
    assert_eq!(engine.current_model(), Some(ModelType::WhisperTiny));
    assert!(engine.load_model(ModelType::Phi2).is_ok());
    assert_eq!(engine.current_model(), Some(ModelType::Phi2));
}

#[test]
fn model_names() {
    assert_eq!(ModelType::WhisperTiny.model_name(), "openai/whisper-tiny.en");
    assert_eq!(ModelType::WhisperBase.model_name(), "openai/whisper-base.en");
    assert_eq!(ModelType::WhisperSmall.model_name(), "openai/whisper-small");
    assert_eq!(ModelType::Phi2.model_name(), "microsoft/phi-2");
    assert_eq!(
        ModelType::TinyLlama.model_name(),
        "TinyLlama/TinyLlama-1.1B-Chat-v1.0"
    );
}

#[test]
fn model_sizes() {
    assert_eq!(ModelType::WhisperTiny.size_mb(), 75);
    assert_eq!(ModelType::WhisperBase.size_mb(), 142);
    assert_eq!(ModelType::WhisperSmall.size_mb(), 466);
    assert_eq!(ModelType::Phi2.size_mb(), 1500);
    assert_eq!(ModelType::TinyLlama.size_mb(), 600);
}

#[test]
fn model_ram() {
    assert_eq!(ModelType::WhisperTiny.ram_mb(), 390);
    assert_eq!(ModelType::WhisperBase.ram_mb(), 500);
    assert_eq!(ModelType::WhisperSmall.ram_mb(), 1000);
    assert_eq!(ModelType::Phi2.ram_mb(), 2000);
    assert_eq!(ModelType::TinyLlama.ram_mb(), 800);
}

#[test]
fn whisper_configs() {
    let tiny = WhisperConfig::tiny();
    assert_eq!(tiny.vocab_size, 51865);
    assert_eq!(tiny.num_mel_bins, 80);
    assert_eq!(tiny.encoder_layers, 4);
    assert_eq!(tiny.encoder_units, 384);
    let base = WhisperConfig::base();
    assert_eq!(base.encoder_layers, 6);
    assert_eq!(base.encoder_attention_heads, 8);
    assert_eq!(base.decoder_units, 512);
}

#[test]
fn llm_configs() {
    let phi = LlmConfig::phi_2();
    assert_eq!(phi.vocab_size, 50257);
    assert_eq!(phi.hidden_size, 2560);
    assert_eq!(phi.num_layers, 32);
    let llama = LlmConfig::tiny_llama();
    assert_eq!(llama.vocab_size, 32000);
    assert_eq!(llama.intermediate_size, 5632);
    assert_eq!(llama.max_position_embeddings, 2048);
}
