use vstd::prelude::*;
use candle_core::Tensor;
use candle_transformers::generation::LogitsProcessor;
use crate::error::EngineError;
use crate::model::{dims, dims_of, failure_text};

verus! {

#[verifier::external_type_specification]
#[verifier::external_body]
pub struct ExLogitsProcessor(LogitsProcessor);

/// Seed of the random source, the same for every run.
pub const SAMPLING_SEED: u64 = 299792458;

/// `candle_transformers::utils::apply_repeat_penalty` with the factor that
/// the scalar tensor `factor` holds, read by `Tensor::to_scalar`. It
/// succeeds on one row of scores only and gives back a row of the same
/// length. Nothing is claimed of the scores in it.
#[verifier::external_body]
fn penalized(logits: &Tensor, factor: &Tensor, history: &[u32]) -> (r: Result<
    Tensor,
    candle_core::Error,
>)
    ensures
        r matches Ok(adjusted) ==> dims_of(*logits).len() == 1 && dims_of(adjusted) == dims_of(
            *logits,
        ),
{
    candle_transformers::utils::apply_repeat_penalty(logits, factor.to_scalar()?, history)
}

/// `LogitsProcessor::sample` on one row of scores that is not empty. The
/// token is the index of one of the scores; which one depends on the scores
/// and, above temperature zero, on the random source.
#[verifier::external_body]
fn sampled(processor: &mut LogitsProcessor, logits: &Tensor) -> (r: Result<u32, candle_core::Error>)
    requires
        score_row(dims_of(*logits)),
    ensures
        r matches Ok(token) ==> token < dims_of(*logits)[0],
{
    processor.sample(logits)
}

/// `Tensor::sub`: the difference of two tensors, element by element.
/// Nothing is claimed of it.
#[verifier::external_body]
fn difference(left: &Tensor, right: &Tensor) -> (r: Result<Tensor, candle_core::Error>) {
    left.sub(right)
}

/// `Tensor::ne`: a tensor of bytes, one where the elements of the two
/// tensors differ. Nothing is claimed of it.
#[verifier::external_body]
fn unequal(left: &Tensor, right: &Tensor) -> (r: Result<Tensor, candle_core::Error>) {
    left.ne(right)
}

/// `Tensor::max_all` on a tensor of bytes, read by `Tensor::to_scalar`.
/// Nothing is claimed of the byte.
#[verifier::external_body]
fn largest_byte(bytes: &Tensor) -> (r: Result<u8, candle_core::Error>) {
    bytes.max_all()?.to_scalar()
}

/// Scores that a token can be chosen from: one row, with one score at
/// least.
pub open spec fn score_row(dims: Seq<usize>) -> bool {
    dims.len() == 1 && dims[0] >= 1
}

/// The message of the failure on scores that are no such row.
pub const NO_SCORE_ROW: &'static str = "the scores are not one row of at least one score";

/// Whether the scores are one row with one score at least.
fn is_score_row(logits: &Tensor) -> (r: bool)
    ensures
        r == score_row(dims_of(*logits)),
{
    let dims = dims(logits);
    dims.len() == 1 && dims[0] >= 1
}

/// The message of the failure on a score that is not finite.
pub const NOT_FINITE: &'static str = "a score is not finite";

/// What a call on the scores hands on, for every way the call can end: the
/// value of a call that succeeded, and `Numeric` with the text of the
/// failure for one that did not.
pub fn numeric_outcome<T>(outcome: Result<T, candle_core::Error>) -> (r: Result<T, EngineError>)
    ensures
        match outcome {
            Ok(value) => r == Ok::<T, EngineError>(value),
            Err(_) => r is Err && r->Err_0 is Numeric,
        },
{
    match outcome {
        Ok(value) => Ok(value),
        Err(failure) => Err(EngineError::Numeric(failure_text(&failure))),
    }
}

/// Reads the largest of the flags that mark the scores which are not
/// finite: all scores are finite exactly if that flag is zero. A failure is
/// handed on as it is.
pub fn no_strays(largest: Result<u8, candle_core::Error>) -> (r: Result<bool, candle_core::Error>)
    ensures
        match largest {
            Ok(flag) => r == Ok::<bool, candle_core::Error>(flag == 0),
            Err(failure) => r == Err::<bool, candle_core::Error>(failure),
        },
{
    match largest {
        Ok(flag) => Ok(flag == 0),
        Err(failure) => Err(failure),
    }
}

/// Whether a choice may be made, for every way the test of the scores can
/// end: yes if all of them are finite; `Numeric` if one is not, or if the
/// test itself failed.
pub fn finiteness_outcome(finite: Result<bool, candle_core::Error>) -> (r: Result<(), EngineError>)
    ensures
        match finite {
            Ok(all) => if all {
                r is Ok
            } else {
                r is Err && r->Err_0 is Numeric && r->Err_0.spec_message()@ == NOT_FINITE@
            },
            Err(_) => r is Err && r->Err_0 is Numeric,
        },
{
    match finite {
        Ok(true) => Ok(()),
        Ok(false) => Err(EngineError::Numeric(NOT_FINITE.to_string())),
        Err(failure) => Err(EngineError::Numeric(failure_text(&failure))),
    }
}

/// Whether every score is a finite number. A score minus itself is zero if
/// the score is finite and not a number otherwise, and only what is not a
/// number differs from itself.
fn all_finite(logits: &Tensor) -> (r: Result<bool, candle_core::Error>) {
    let rest = match difference(logits, logits) {
        Ok(rest) => rest,
        Err(failure) => {
            return Err(failure);
        },
    };
    let strays = match unequal(&rest, &rest) {
        Ok(strays) => strays,
        Err(failure) => {
            return Err(failure);
        },
    };
    no_strays(largest_byte(&strays))
}

/// The token for scores that are final, which is the index of one of them:
/// `Numeric` unless they are one row that is not empty, all of them are
/// finite and the choice succeeds.
fn chosen(processor: &mut LogitsProcessor, logits: &Tensor) -> (r: Result<u32, EngineError>)
    ensures
        r matches Err(e) ==> e is Numeric,
        r matches Ok(token) ==> token < dims_of(*logits)[0],
        !score_row(dims_of(*logits)) ==> r is Err && r->Err_0.spec_message()@ == NO_SCORE_ROW@,
{
    if !is_score_row(logits) {
        return Err(EngineError::Numeric(NO_SCORE_ROW.to_string()));
    }
    match finiteness_outcome(all_finite(logits)) {
        Ok(()) => numeric_outcome(sampled(processor, logits)),
        Err(e) => Err(e),
    }
}

/// Turns the scores of one step into one token: repetition penalty first,
/// then the arg-max or a draw, as the processor was set up.
pub struct Sampler {
    processor: LogitsProcessor,
    penalty: Option<Tensor>,
}

impl Sampler {
    /// `penalty` is the repetition-penalty factor as a scalar tensor, or
    /// `None` for the neutral factor, with which the scores stay as they are.
    pub fn new(processor: LogitsProcessor, penalty: Option<Tensor>) -> (sampler: Sampler)
        ensures
            sampler.penalizes() == penalty is Some,
    {
        Sampler { processor, penalty }
    }

    /// Whether a repetition penalty is applied.
    pub closed spec fn penalizes(&self) -> bool {
        self.penalty is Some
    }

    /// The scores after the repetition penalty over `history`, or `None`
    /// if the factor is neutral. Fails with `Numeric` if the penalty does.
    pub fn adjust(&self, raw_logits: &Tensor, history: &[u32]) -> (r: Result<
        Option<Tensor>,
        EngineError,
    >)
        ensures
            r matches Ok(adjusted) ==> adjusted is Some == self.penalizes(),
            r matches Ok(Some(scores)) ==> dims_of(*raw_logits).len() == 1 && dims_of(scores)
                == dims_of(*raw_logits),
            r matches Err(e) ==> e is Numeric && self.penalizes(),
    {
        match &self.penalty {
            None => Ok(None),
            Some(factor) => match penalized(raw_logits, factor, history) {
                Ok(adjusted) => Ok(Some(adjusted)),
                Err(failure) => Err(EngineError::Numeric(failure_text(&failure))),
            },
        }
    }

    /// Chooses the token of one step from its raw scores and the history
    /// window. The token is the index of one of the scores. Fails with
    /// `Numeric` if the scores are not one row of at least one score, if the
    /// penalty or the choice fails, or if a score is not finite after the
    /// penalty.
    pub fn process(&mut self, raw_logits: &Tensor, history: &[u32]) -> (r: Result<u32, EngineError>)
        ensures
            r matches Err(e) ==> e is Numeric,
            r matches Ok(token) ==> token < dims_of(*raw_logits)[0],
            !score_row(dims_of(*raw_logits)) ==> r is Err,
            !score_row(dims_of(*raw_logits)) && !old(self).penalizes() ==> r->Err_0.spec_message()@
                == NO_SCORE_ROW@,
            final(self).penalizes() == old(self).penalizes(),
    {
        let adjusted = match self.adjust(raw_logits, history) {
            Ok(adjusted) => adjusted,
            Err(e) => {
                return Err(e);
            },
        };
        match &adjusted {
            Some(logits) => chosen(&mut self.processor, logits),
            None => chosen(&mut self.processor, raw_logits),
        }
    }
}

} // verus!
