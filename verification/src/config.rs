use vstd::prelude::*;
use crate::error::EngineError;

verus! {

/// The fields of a model configuration that generation reads.
#[derive(Debug, Clone, Copy)]
pub struct DecoderConfig {
    /// Id of the padding token; it seeds the output when no start id is set.
    pub pad_token_id: usize,
    /// Id of the token that ends a sequence.
    pub eos_token_id: usize,
    /// Id of the token that the decoder starts from, if the model names one.
    pub decoder_start_token_id: Option<usize>,
    /// Whether the decoder keeps its state between calls.
    pub use_cache: bool,
}

impl DecoderConfig {
    /// The id that seeds the output: the start id, or the padding id without one.
    pub open spec fn seed_id(&self) -> usize {
        match self.decoder_start_token_id {
            Some(id) => id,
            None => self.pad_token_id,
        }
    }

    /// Both ids that the engine reads are token ids, which are 32 bits wide.
    pub open spec fn usable(&self) -> bool {
        self.seed_id() <= u32::MAX && self.eos_token_id <= u32::MAX
    }

    /// The token that seeds the output, or `Configuration` if the configured
    /// id is no token id.
    pub fn start_token(&self) -> (r: Result<u32, EngineError>)
        ensures
            self.seed_id() <= u32::MAX ==> r == Ok::<u32, EngineError>(self.seed_id() as u32),
            self.seed_id() > u32::MAX ==> r is Err && r->Err_0 is Configuration,
    {
        let id = match self.decoder_start_token_id {
            Some(id) => id,
            None => self.pad_token_id,
        };
        if id <= u32::MAX as usize {
            Ok(id as u32)
        } else {
            Err(EngineError::Configuration("start token id out of range".to_string()))
        }
    }

    /// The token that ends a sequence, or `Configuration` if the configured
    /// id is no token id.
    pub fn stop_token(&self) -> (r: Result<u32, EngineError>)
        ensures
            self.eos_token_id <= u32::MAX ==> r == Ok::<u32, EngineError>(self.eos_token_id as u32),
            self.eos_token_id > u32::MAX ==> r is Err && r->Err_0 is Configuration,
    {
        if self.eos_token_id <= u32::MAX as usize {
            Ok(self.eos_token_id as u32)
        } else {
            Err(EngineError::Configuration("end-of-sequence token id out of range".to_string()))
        }
    }
}

} // verus!
