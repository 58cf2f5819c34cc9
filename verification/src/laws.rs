use vstd::prelude::*;
use crate::engine::{input_for, EngineModel};

verus! {

/// Every token that the decoder was fed up to and including the step taken
/// at `output`: the inputs of the steps at each prefix of `output`, one
/// after the other.
pub open spec fn fed_through(output: Seq<u32>, use_cache: bool) -> Seq<u32>
    decreases output.len(),
{
    if output.len() <= 1 {
        input_for(output, use_cache)
    } else {
        fed_through(output.drop_last(), use_cache) + input_for(output, use_cache)
    }
}

/// What a decoder has to work from at the step taken at `output`. One that
/// keeps its state works from all that it was fed so far; one that does not
/// works from the input of this step alone.
pub open spec fn decoder_context(output: Seq<u32>, use_cache: bool) -> Seq<u32> {
    if use_cache {
        fed_through(output, use_cache)
    } else {
        input_for(output, use_cache)
    }
}

/// The state after up to `steps` steps of a run whose candidates come from
/// `decoder`, a function of what the decoder has to work from.
pub open spec fn run(state: EngineModel, decoder: spec_fn(Seq<u32>) -> u32, steps: nat) -> EngineModel
    decreases steps,
{
    if steps == 0 || state.done() {
        state
    } else {
        run(
            state.step(decoder(decoder_context(state.output, state.use_cache))),
            decoder,
            (steps - 1) as nat,
        )
    }
}

/// A step keeps the state well formed, never shortens the output, and
/// lengthens it by exactly one token when it appends.
pub proof fn lemma_step_grows_by_one(state: EngineModel, candidate: u32)
    requires
        state.wf(),
    ensures
        state.step(candidate).wf(),
        state.output.is_prefix_of(state.step(candidate).output),
        state.emitted(candidate) is Some ==> state.step(candidate).output.len()
            == state.output.len() + 1,
        state.emitted(candidate) is None ==> state.step(candidate).output == state.output,
        state.done() ==> state.step(candidate) == state,
{
}

/// Whatever the candidates are, the output never holds more than the start
/// token and `max_tokens` generated ones.
pub proof fn lemma_output_bounded(state: EngineModel, decoder: spec_fn(Seq<u32>) -> u32, steps: nat)
    requires
        state.wf(),
    ensures
        run(state, decoder, steps).wf(),
        run(state, decoder, steps).output.len() <= state.max_tokens + 1,
        run(state, decoder, steps).max_tokens == state.max_tokens,
        state.output.is_prefix_of(run(state, decoder, steps).output),
    decreases steps,
{
    if steps == 0 || state.done() {
    } else {
        let next = state.step(decoder(decoder_context(state.output, state.use_cache)));
        lemma_step_grows_by_one(state, decoder(decoder_context(state.output, state.use_cache)));
        lemma_output_bounded(next, decoder, (steps - 1) as nat);
    }
}

/// Whatever the candidates are, a run is over after as many steps as it has
/// tokens left to generate.
pub proof fn lemma_run_terminates(state: EngineModel, decoder: spec_fn(Seq<u32>) -> u32, steps: nat)
    requires
        state.wf(),
        steps >= state.max_tokens + 1 - state.output.len(),
    ensures
        run(state, decoder, steps).done(),
    decreases steps,
{
    if steps == 0 || state.done() {
    } else {
        let candidate = decoder(decoder_context(state.output, state.use_cache));
        lemma_step_grows_by_one(state, candidate);
        if candidate == state.eos {
            lemma_done_is_final(state.step(candidate), decoder, (steps - 1) as nat);
        } else {
            lemma_run_terminates(state.step(candidate), decoder, (steps - 1) as nat);
        }
    }
}

/// A finished run stays as it is.
pub proof fn lemma_done_is_final(state: EngineModel, decoder: spec_fn(Seq<u32>) -> u32, steps: nat)
    requires
        state.done(),
    ensures
        run(state, decoder, steps) == state,
{
}

/// If the first candidate of a run that is not over is the end-of-sequence
/// token, the run is over after that one decode call, and nothing was
/// appended or emitted.
pub proof fn lemma_stop_token_short_circuit(
    state: EngineModel,
    decoder: spec_fn(Seq<u32>) -> u32,
    steps: nat,
)
    requires
        state.wf(),
        !state.done(),
        steps >= 1,
        decoder(decoder_context(state.output, state.use_cache)) == state.eos,
    ensures
        state.emitted(state.eos) is None,
        run(state, decoder, steps).done(),
        run(state, decoder, steps).output == state.output,
        run(state, decoder, steps).tokens_generated() == state.tokens_generated(),
        run(state, decoder, steps).decode_calls() == state.decode_calls() + 1,
{
    lemma_done_is_final(state.step(state.eos), decoder, (steps - 1) as nat);
}

/// With caching, all that the decoder was fed through a step is the output
/// at that step: the same tokens that it is fed in one piece without
/// caching.
pub proof fn lemma_cache_feeds_whole_prefix(output: Seq<u32>)
    requires
        output.len() >= 1,
    ensures
        fed_through(output, true) == output,
        fed_through(output, true) == input_for(output, false),
        decoder_context(output, true) == decoder_context(output, false),
    decreases output.len(),
{
    if output.len() > 1 {
        lemma_cache_feeds_whole_prefix(output.drop_last());
        assert(output.drop_last() + output.subrange(output.len() - 1, output.len() as int)
            =~= output);
    }
}

/// Two runs that differ only in whether the decoder keeps its state, with
/// candidates from the same function of what the decoder has to work from,
/// go through the same states but for that flag: the same output, stopped
/// at the same step.
pub proof fn lemma_cache_path_equivalence(
    cached: EngineModel,
    uncached: EngineModel,
    decoder: spec_fn(Seq<u32>) -> u32,
    steps: nat,
)
    requires
        cached.wf(),
        cached.use_cache,
        uncached == (EngineModel { use_cache: false, ..cached }),
    ensures
        run(uncached, decoder, steps) == (EngineModel {
            use_cache: false,
            ..run(cached, decoder, steps)
        }),
        run(uncached, decoder, steps).output == run(cached, decoder, steps).output,
    decreases steps,
{
    if steps == 0 || cached.done() {
    } else {
        lemma_cache_feeds_whole_prefix(cached.output);
        let candidate = decoder(decoder_context(cached.output, true));
        lemma_step_grows_by_one(cached, candidate);
        lemma_cache_path_equivalence(
            cached.step(candidate),
            uncached.step(candidate),
            decoder,
            (steps - 1) as nat,
        );
    }
}

} // verus!
