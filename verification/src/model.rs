use vstd::prelude::*;
use candle_core::{Device, Tensor};
use candle_transformers::models::quantized_t5::T5ForConditionalGeneration;
use crate::error::EngineError;

verus! {

#[verifier::external_type_specification]
#[verifier::external_body]
pub struct ExTensor(Tensor);

#[verifier::external_type_specification]
#[verifier::external_body]
pub struct ExDevice(Device);

#[verifier::external_type_specification]
#[verifier::external_body]
pub struct ExCandleError(candle_core::Error);

#[verifier::external_type_specification]
#[verifier::external_body]
pub struct ExT5ForConditionalGeneration(T5ForConditionalGeneration);

/// The dimensions of a tensor, outermost first.
pub uninterp spec fn dims_of(tensor: Tensor) -> Seq<usize>;

/// `Tensor::dims`: the dimensions of the tensor.
#[verifier::external_body]
pub(crate) fn dims(tensor: &Tensor) -> (r: Vec<usize>)
    ensures
        r@ == dims_of(*tensor),
{
    tensor.dims().to_vec()
}

/// The message of a `candle_core::Error`, as its `Display` writes it.
/// Nothing is claimed of the text.
#[verifier::external_body]
pub(crate) fn failure_text(failure: &candle_core::Error) -> (text: String) {
    failure.to_string()
}

/// The dimensions of an encoder state that the decoder can attend to: a
/// batch of one, the positions of the source, of which there is one at
/// least, and the hidden size.
pub open spec fn attendable(dims: Seq<usize>) -> bool {
    dims.len() == 3 && dims[0] == 1 && dims[1] >= 1
}

/// `T5ForConditionalGeneration::encode` on the ids as one batch: the ids go
/// through `Tensor::new` and `Tensor::unsqueeze`. The state that comes back
/// has three dimensions: the batch of one, the number of ids and the hidden
/// size. Nothing is claimed of what it holds.
#[verifier::external_body]
fn encoder_pass(model: &mut T5ForConditionalGeneration, ids: &[u32], device: &Device) -> (r: Result<
    Tensor,
    candle_core::Error,
>)
    requires
        ids@.len() >= 1,
    ensures
        r matches Ok(state) ==> dims_of(state).len() == 3 && dims_of(state)[0] == 1 && dims_of(
            state,
        )[1] == ids@.len(),
{
    let input = Tensor::new(ids, device)?.unsqueeze(0)?;
    model.encode(&input)
}

/// `T5ForConditionalGeneration::decode` on the ids as one batch, against an
/// encoder state with one position at least: the ids go through
/// `Tensor::new` and `Tensor::unsqueeze`, the scores come back through
/// `Tensor::squeeze`. Nothing is claimed of the scores.
#[verifier::external_body]
fn decoder_pass(
    model: &mut T5ForConditionalGeneration,
    ids: &[u32],
    encoder_state: &Tensor,
    device: &Device,
) -> (r: Result<Tensor, candle_core::Error>)
    requires
        ids@.len() >= 1,
        attendable(dims_of(*encoder_state)),
{
    let input = Tensor::new(ids, device)?.unsqueeze(0)?;
    model.decode(&input, encoder_state)?.squeeze(0)
}

/// What a call of the model hands on, for every way the call can end: the
/// tensor of a call that succeeded, and `ModelInference` with the text of
/// the failure for one that did not.
pub fn inference_outcome(outcome: Result<Tensor, candle_core::Error>) -> (r: Result<
    Tensor,
    EngineError,
>)
    ensures
        match outcome {
            Ok(tensor) => r == Ok::<Tensor, EngineError>(tensor),
            Err(_) => r is Err && r->Err_0 is ModelInference,
        },
{
    match outcome {
        Ok(tensor) => Ok(tensor),
        Err(failure) => Err(EngineError::ModelInference(failure_text(&failure))),
    }
}

/// Runs the encoder once over the source ids. The state has one position
/// for each id. Fails with `ModelInference` if the model does.
pub(crate) fn encode(model: &mut T5ForConditionalGeneration, ids: &[u32], device: &Device) -> (r: Result<
    Tensor,
    EngineError,
>)
    requires
        ids@.len() >= 1,
    ensures
        r matches Ok(state) ==> attendable(dims_of(state)) && dims_of(state)[1] == ids@.len(),
        r matches Err(e) ==> e is ModelInference,
{
    inference_outcome(encoder_pass(model, ids, device))
}

/// Runs the decoder over `ids` against the encoder state and returns the
/// scores of the next token. Fails with `ModelInference` if the model does.
pub(crate) fn decode(
    model: &mut T5ForConditionalGeneration,
    ids: &[u32],
    encoder_state: &Tensor,
    device: &Device,
) -> (r: Result<Tensor, EngineError>)
    requires
        ids@.len() >= 1,
        attendable(dims_of(*encoder_state)),
    ensures
        r matches Err(e) ==> e is ModelInference,
{
    inference_outcome(decoder_pass(model, ids, encoder_state, device))
}

} // verus!
