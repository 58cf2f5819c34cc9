use vstd::prelude::*;
use candle_core::{Device, Tensor};
use candle_transformers::models::quantized_t5::T5ForConditionalGeneration;
use tokenizers::Tokenizer;
use crate::config::DecoderConfig;
use crate::engine::{EngineModel, GenerationEngine};
use crate::error::EngineError;
use crate::model::{attendable, decode, dims_of, encode};
use crate::sampling::Sampler;
use crate::vocabulary::{fragment_for, shown, vocabulary_of, Fragment, NO_TOKENS};

verus! {

/// One run from source ids to fragments. It owns the model, the encoder
/// state and the output for as long as the run lasts, and hands out the
/// fragments one at a time, in order, each only once.
pub struct Generation {
    engine: GenerationEngine,
    model: T5ForConditionalGeneration,
    encoder_state: Tensor,
    device: Device,
    sampler: Sampler,
    tokenizer: Tokenizer,
}

impl Generation {
    /// The state of the run.
    pub closed spec fn state(&self) -> EngineModel {
        self.engine@
    }

    /// The encoder state, made once when the run begins.
    pub closed spec fn encoder_state(&self) -> Tensor {
        self.encoder_state
    }

    /// The vocabulary that fragments are read from.
    pub closed spec fn vocabulary(&self) -> Map<u32, Seq<char>> {
        vocabulary_of(self.tokenizer)
    }

    /// Whether a repetition penalty is applied to the scores of each step.
    pub closed spec fn penalizes(&self) -> bool {
        self.sampler.penalizes()
    }

    /// The encoder state has one position at least for the decoder to
    /// attend to.
    pub closed spec fn encoder_ready(&self) -> bool {
        attendable(dims_of(self.encoder_state))
    }

    /// Holds of every run that `begin` returns and is kept by every method.
    pub open spec fn wf(&self) -> bool {
        self.state().wf() && self.encoder_ready()
    }

    /// Runs the encoder once over the ids of the source and seeds the
    /// output.
    ///
    /// Fails with `Configuration` exactly if the configured start or
    /// end-of-sequence id is no token id; else with `Tokenization` exactly if
    /// the source has no ids; else with `ModelInference` if the encoder
    /// fails.
    pub fn begin(
        model: T5ForConditionalGeneration,
        tokenizer: Tokenizer,
        device: Device,
        sampler: Sampler,
        config: &DecoderConfig,
        repeat_last_n: usize,
        max_tokens: usize,
        source_ids: &[u32],
    ) -> (r: Result<Generation, EngineError>)
        ensures
            !config.usable() ==> r is Err && r->Err_0 is Configuration,
            config.usable() && source_ids@.len() == 0 ==> r is Err && r->Err_0 is Tokenization
                && r->Err_0.spec_message()@ == NO_TOKENS@,
            r matches Err(e) ==> (e is Configuration <==> !config.usable()) && (e is Tokenization
                <==> config.usable() && source_ids@.len() == 0) && (e is Configuration
                || e is Tokenization || e is ModelInference),
            r matches Ok(run) ==> run.wf() && run.vocabulary() == vocabulary_of(tokenizer)
                && run.penalizes() == sampler.penalizes() && run.state() == EngineModel::seeded(
                config.seed_id() as u32,
                config.eos_token_id as u32,
                config.use_cache,
                repeat_last_n as nat,
                max_tokens as nat,
            ),
    {
        let engine = match GenerationEngine::new(config, repeat_last_n, max_tokens) {
            Ok(engine) => engine,
            Err(e) => {
                return Err(e);
            },
        };
        if source_ids.len() == 0 {
            return Err(EngineError::Tokenization(NO_TOKENS.to_string()));
        }
        let mut model = model;
        let encoder_state = match encode(&mut model, source_ids, &device) {
            Ok(state) => state,
            Err(e) => {
                return Err(e);
            },
        };
        Ok(Generation { engine, model, encoder_state, device, sampler, tokenizer })
    }

    /// The engine behind the run.
    pub fn engine(&self) -> (engine: &GenerationEngine)
        ensures
            engine@ == self.state(),
    {
        &self.engine
    }

    /// Number of tokens generated so far.
    pub fn tokens_generated(&self) -> (n: usize)
        requires
            self.wf(),
        ensures
            n == self.state().tokens_generated(),
    {
        self.engine.tokens_generated()
    }

    /// One step of the run, or nothing if it is over.
    ///
    /// On a finished run no call is made and `Ok(None)` comes back. Else the
    /// decoder is run on the input of this step, a token is chosen from its
    /// scores and the history window, and the engine takes the token in:
    /// `Ok(Some(..))` is the fragment of a token that was appended,
    /// `Ok(None)` says that the end-of-sequence token was chosen. If the
    /// decoder fails the error is `ModelInference`, if the choice fails it is
    /// `Numeric`; the run is then left as it was. Every step works from the
    /// same encoder state.
    pub fn next_fragment(&mut self) -> (r: Result<Option<Fragment>, EngineError>)
        requires
            old(self).wf(),
        ensures
            final(self).wf(),
            final(self).vocabulary() == old(self).vocabulary(),
            final(self).encoder_state() == old(self).encoder_state(),
            final(self).penalizes() == old(self).penalizes(),
            old(self).state().done() ==> r == Ok::<Option<Fragment>, EngineError>(None)
                && final(self).state() == old(self).state(),
            !old(self).state().done() ==> match r {
                Ok(Some(fragment)) => {
                    &&& fragment.token != old(self).state().eos
                    &&& final(self).state() == old(self).state().step(fragment.token)
                    &&& fragment.shows() == shown(old(self).vocabulary(), fragment.token)
                },
                Ok(None) => final(self).state() == old(self).state().step(old(self).state().eos),
                Err(e) => (e is ModelInference || e is Numeric) && final(self).state() == old(
                    self,
                ).state(),
            },
    {
        if self.engine.is_done() {
            return Ok(None);
        }
        let logits = match decode(
            &mut self.model,
            self.engine.decoder_input(),
            &self.encoder_state,
            &self.device,
        ) {
            Ok(logits) => logits,
            Err(e) => {
                return Err(e);
            },
        };
        let candidate = match self.sampler.process(&logits, self.engine.history_window()) {
            Ok(candidate) => candidate,
            Err(e) => {
                return Err(e);
            },
        };
        match self.engine.accept(candidate) {
            Some(token) => Ok(Some(fragment_for(&self.tokenizer, token))),
            None => Ok(None),
        }
    }
}

} // verus!
