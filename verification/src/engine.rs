use vstd::prelude::*;
use vstd::slice::slice_subrange;
use crate::config::DecoderConfig;
use crate::error::EngineError;

verus! {

/// Hard cap on the number of tokens that one run generates.
pub const MAX_OUTPUT_TOKENS: usize = 512;

/// Number of trailing output tokens that the repetition penalty looks at,
/// unless the caller asks for another.
pub const DEFAULT_REPEAT_LAST_N: usize = 64;

/// Where a run stands.
#[derive(Debug, Clone, Copy, PartialEq, Eq, Structural)]
pub enum Phase {
    /// The output holds the start token only; no decode call was made.
    Seeded,
    /// At least one token was accepted and the run goes on.
    Stepping,
    /// The stop signal is up: no further decode call is made.
    Done,
}

/// The mathematical state of a run.
pub struct EngineModel {
    /// The token that ends the sequence.
    pub eos: u32,
    /// Whether the decoder keeps its state between calls.
    pub use_cache: bool,
    /// The most tokens that a run may generate.
    pub max_tokens: nat,
    /// Width of the repetition window.
    pub repeat_last_n: nat,
    /// The start token followed by every accepted token, oldest first.
    pub output: Seq<u32>,
    /// Whether the end-of-sequence token was chosen.
    pub stopped: bool,
}

/// What the decoder is fed when the output so far is `output`: all of it on
/// the first step or without caching, else the newest token alone.
pub open spec fn input_for(output: Seq<u32>, use_cache: bool) -> Seq<u32> {
    if output.len() <= 1 || !use_cache {
        output
    } else {
        output.subrange(output.len() - 1, output.len() as int)
    }
}

/// The trailing `n` tokens of `output`, or all of it if it is shorter.
pub open spec fn window_of(output: Seq<u32>, n: nat) -> Seq<u32> {
    if output.len() <= n {
        output
    } else {
        output.subrange(output.len() - n, output.len() as int)
    }
}

impl EngineModel {
    /// The state before the first decode call.
    pub open spec fn seeded(
        start: u32,
        eos: u32,
        use_cache: bool,
        repeat_last_n: nat,
        max_tokens: nat,
    ) -> EngineModel {
        EngineModel { eos, use_cache, max_tokens, repeat_last_n, output: seq![start], stopped: false }
    }

    /// The output holds the start token and at most `max_tokens` more.
    pub open spec fn wf(self) -> bool {
        1 <= self.output.len() <= self.max_tokens + 1
    }

    /// The stop signal: the end-of-sequence token was chosen, or the output
    /// is longer than the maximum.
    pub open spec fn done(self) -> bool {
        self.stopped || self.output.len() > self.max_tokens
    }

    pub open spec fn phase(self) -> Phase {
        if self.done() {
            Phase::Done
        } else if self.output.len() == 1 {
            Phase::Seeded
        } else {
            Phase::Stepping
        }
    }

    /// The decoder input of the next step.
    pub open spec fn decoder_input(self) -> Seq<u32> {
        input_for(self.output, self.use_cache)
    }

    /// The part of the output that the repetition penalty looks at.
    pub open spec fn history_window(self) -> Seq<u32> {
        window_of(self.output, self.repeat_last_n)
    }

    /// Number of tokens generated: the output without its start token.
    pub open spec fn tokens_generated(self) -> int {
        self.output.len() - 1
    }

    /// Number of decode calls whose candidate was taken in: one for each
    /// generated token, and one more for the end-of-sequence token.
    pub open spec fn decode_calls(self) -> int {
        self.tokens_generated() + if self.stopped { 1int } else { 0int }
    }

    /// The token that a step with this candidate emits, if it emits one.
    pub open spec fn emitted(self, candidate: u32) -> Option<u32> {
        if self.done() || candidate == self.eos {
            None
        } else {
            Some(candidate)
        }
    }

    /// One transition. A finished run stays as it is; the end-of-sequence
    /// token stops the run without being appended; any other candidate is
    /// appended.
    pub open spec fn step(self, candidate: u32) -> EngineModel {
        if self.done() {
            self
        } else if candidate == self.eos {
            EngineModel { stopped: true, ..self }
        } else {
            EngineModel { output: self.output.push(candidate), ..self }
        }
    }
}

/// The state machine behind one run: it owns the output sequence, says what
/// to feed the decoder next, and takes in the token chosen for each step.
pub struct GenerationEngine {
    eos: u32,
    use_cache: bool,
    max_tokens: usize,
    repeat_last_n: usize,
    output: Vec<u32>,
    stopped: bool,
}

impl View for GenerationEngine {
    type V = EngineModel;

    closed spec fn view(&self) -> EngineModel {
        EngineModel {
            eos: self.eos,
            use_cache: self.use_cache,
            max_tokens: self.max_tokens as nat,
            repeat_last_n: self.repeat_last_n as nat,
            output: self.output@,
            stopped: self.stopped,
        }
    }
}

impl GenerationEngine {
    /// Holds of every engine that `new` returns and is kept by every method.
    pub open spec fn wf(&self) -> bool {
        self@.wf()
    }

    /// A run seeded with the configured start token. It is over before it
    /// starts if `max_tokens` is zero. Fails with `Configuration` exactly if
    /// the start id or the end-of-sequence id is no token id.
    pub fn new(config: &DecoderConfig, repeat_last_n: usize, max_tokens: usize) -> (r: Result<
        GenerationEngine,
        EngineError,
    >)
        ensures
            config.usable() ==> r is Ok && r->Ok_0@ == EngineModel::seeded(
                config.seed_id() as u32,
                config.eos_token_id as u32,
                config.use_cache,
                repeat_last_n as nat,
                max_tokens as nat,
            ),
            !config.usable() ==> r is Err && r->Err_0 is Configuration,
            r is Ok ==> r->Ok_0.wf(),
    {
        let start = match config.start_token() {
            Ok(token) => token,
            Err(e) => {
                return Err(e);
            },
        };
        let eos = match config.stop_token() {
            Ok(token) => token,
            Err(e) => {
                return Err(e);
            },
        };
        let mut output: Vec<u32> = Vec::new();
        output.push(start);
        Ok(GenerationEngine {
            eos,
            use_cache: config.use_cache,
            max_tokens,
            repeat_last_n,
            output,
            stopped: false,
        })
    }

    /// The start token followed by every accepted token.
    pub fn output(&self) -> (tokens: &[u32])
        ensures
            tokens@ == self@.output,
    {
        self.output.as_slice()
    }

    pub fn is_done(&self) -> (done: bool)
        ensures
            done == self@.done(),
    {
        self.stopped || self.output.len() > self.max_tokens
    }

    pub fn phase(&self) -> (phase: Phase)
        ensures
            phase == self@.phase(),
    {
        if self.is_done() {
            Phase::Done
        } else if self.output.len() == 1 {
            Phase::Seeded
        } else {
            Phase::Stepping
        }
    }

    /// What to feed the decoder next: the whole output on the first step or
    /// when the decoder keeps no state, else the newest token alone.
    pub fn decoder_input(&self) -> (input: &[u32])
        ensures
            input@ == self@.decoder_input(),
    {
        let len = self.output.len();
        if len <= 1 || !self.use_cache {
            self.output.as_slice()
        } else {
            slice_subrange(self.output.as_slice(), len - 1, len)
        }
    }

    /// The trailing tokens that the repetition penalty looks at.
    pub fn history_window(&self) -> (window: &[u32])
        ensures
            window@ == self@.history_window(),
    {
        let len = self.output.len();
        if len <= self.repeat_last_n {
            self.output.as_slice()
        } else {
            slice_subrange(self.output.as_slice(), len - self.repeat_last_n, len)
        }
    }

    /// Number of tokens generated so far.
    pub fn tokens_generated(&self) -> (n: usize)
        requires
            self.wf(),
        ensures
            n == self@.tokens_generated(),
    {
        self.output.len() - 1
    }

    /// Takes in the token chosen for this step and returns the token to
    /// emit, if there is one. The end-of-sequence token ends the run and is
    /// not appended; any other token is appended and emitted. On a finished
    /// run nothing changes.
    pub fn accept(&mut self, candidate: u32) -> (emitted: Option<u32>)
        requires
            old(self).wf(),
        ensures
            final(self).wf(),
            final(self)@ == old(self)@.step(candidate),
            emitted == old(self)@.emitted(candidate),
    {
        if self.stopped || self.output.len() > self.max_tokens {
            None
        } else if candidate == self.eos {
            self.stopped = true;
            None
        } else {
            self.output.push(candidate);
            Some(candidate)
        }
    }
}

} // verus!
