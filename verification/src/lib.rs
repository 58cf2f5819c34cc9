//! Token generation for sequence-to-sequence models: the decode loop as a
//! bounded state machine, the policy that picks each step's decoder input and
//! repetition window, and the text conventions around the tokenizer.

pub mod config;
pub mod engine;
pub mod error;
pub mod generation;
pub mod laws;
pub mod model;
pub mod sampling;
pub mod text;
pub mod vocabulary;
