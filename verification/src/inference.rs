//! Inference engine state: which model, if any, is currently loaded.
//!
//! Running the models themselves happens outside the library; this type only
//! tracks the loaded-model state the rest of the stack consults.

use crate::models::ModelType;
use vstd::prelude::*;

verus! {

/// Inference engine for running models.
pub struct InferenceEngine {
    model_type: Option<ModelType>,
}

impl InferenceEngine {
    /// The currently loaded model, if any.
    pub closed spec fn model_view(&self) -> Option<ModelType> {
        self.model_type
    }

    /// Create a new inference engine with no model loaded.
    pub fn new() -> (r: InferenceEngine)
        ensures
            r.model_view() is None,
    {
        InferenceEngine { model_type: None }
    }

    /// Record `model` as the loaded model.
    pub fn load_model(&mut self, model: ModelType) -> (r: Result<(), String>)
        ensures
            final(self).model_view() == Some(model),
            r is Ok,
    {
        self.model_type = Some(model);
        Ok(())
    }

    /// Check if a model is loaded.
    pub fn is_loaded(&self) -> (r: bool)
        ensures
            r == (self.model_view() is Some),
    {
        self.model_type.is_some()
    }

    /// Get the currently loaded model.
    pub fn current_model(&self) -> (r: Option<ModelType>)
        ensures
            r == self.model_view(),
    {
        self.model_type
    }
}

impl Default for InferenceEngine {
    /// Same as `InferenceEngine::new`.
    fn default() -> (r: Self)
        ensures
            r.model_view() is None,
    {
        Self::new()
    }
}

} // verus!
