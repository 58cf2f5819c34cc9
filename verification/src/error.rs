use vstd::prelude::*;

verus! {

/// Why a run was abandoned. None of these is retried: every decode step
/// depends on the token chosen before it.
#[derive(Debug)]
pub enum EngineError {
    /// A model configuration field that the engine needs is missing or malformed.
    Configuration(String),
    /// The source text could not be turned into token ids.
    Tokenization(String),
    /// The encoder or decoder call failed.
    ModelInference(String),
    /// The scores could not be turned into a token choice.
    Numeric(String),
}

impl EngineError {
    /// The text that came with the failure.
    pub fn message(&self) -> (text: &String)
        ensures
            text == self.spec_message(),
    {
        match self {
            EngineError::Configuration(text) => text,
            EngineError::Tokenization(text) => text,
            EngineError::ModelInference(text) => text,
            EngineError::Numeric(text) => text,
        }
    }

    pub open spec fn spec_message(&self) -> String {
        match self {
            EngineError::Configuration(text) => *text,
            EngineError::Tokenization(text) => *text,
            EngineError::ModelInference(text) => *text,
            EngineError::Numeric(text) => *text,
        }
    }
}

} // verus!
