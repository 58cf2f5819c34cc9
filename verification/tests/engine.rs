use madlad400::config::DecoderConfig;
use madlad400::engine::{GenerationEngine, Phase, DEFAULT_REPEAT_LAST_N, MAX_OUTPUT_TOKENS};
use madlad400::error::EngineError;
use madlad400::text::{display_fragment, source_prompt};
use madlad400::vocabulary::accepted_ids;

const START: u32 = 7;
const EOS: u32 = 1;

fn config(use_cache: bool) -> DecoderConfig {
    DecoderConfig {
        pad_token_id: 0,
        eos_token_id: EOS as usize,
        decoder_start_token_id: Some(START as usize),
        use_cache,
    }
}

/// Drives an engine with a decoder that answers from all the tokens it was
/// fed since the run began, as one that keeps its state does, or from the
/// input of the call alone. Returns the output and the number of decode calls.
fn drive(use_cache: bool, max_tokens: usize, answer: fn(&[u32]) -> u32) -> (Vec<u32>, usize) {
    let mut engine = GenerationEngine::new(&config(use_cache), 64, max_tokens).unwrap();
    let mut seen: Vec<u32> = Vec::new();
    let mut calls = 0;
    while !engine.is_done() {
        let input = engine.decoder_input().to_vec();
        let candidate = if use_cache {
            seen.extend_from_slice(&input);
            answer(&seen)
        } else {
            answer(&input)
        };
        calls += 1;
        engine.accept(candidate);
    }
    (engine.output().to_vec(), calls)
}

fn sum_mod(tokens: &[u32]) -> u32 {
    let sum: u32 = tokens.iter().sum();
    if tokens.len() >= 6 {
        EOS
    } else {
        10 + sum % 5
    }
}

fn always_eos(_: &[u32]) -> u32 {
    EOS
}

fn never_eos(tokens: &[u32]) -> u32 {
    100 + tokens.len() as u32
}

#[test]
fn seeded_with_the_start_token() {
    let engine = GenerationEngine::new(&config(true), 64, 512).unwrap();
    assert_eq!(engine.output(), &[START]);
    assert_eq!(engine.phase(), Phase::Seeded);
    assert!(!engine.is_done());
    assert_eq!(engine.tokens_generated(), 0);
}

#[test]
fn seeded_with_the_pad_token_without_a_start_id() {
    let config = DecoderConfig {
        pad_token_id: 3,
        eos_token_id: 1,
        decoder_start_token_id: None,
        use_cache: true,
    };
    let engine = GenerationEngine::new(&config, 64, 512).unwrap();
    assert_eq!(engine.output(), &[3]);
}

#[test]
fn the_limits_have_their_documented_values() {
    assert_eq!(MAX_OUTPUT_TOKENS, 512);
    assert_eq!(DEFAULT_REPEAT_LAST_N, 64);
}

#[test]
fn a_start_id_beyond_the_token_range_is_a_configuration_error() {
    let config = DecoderConfig {
        pad_token_id: 0,
        eos_token_id: 1,
        decoder_start_token_id: Some(u32::MAX as usize + 1),
        use_cache: true,
    };
    assert!(matches!(config.start_token(), Err(EngineError::Configuration(_))));
    assert!(matches!(
        GenerationEngine::new(&config, 64, 512),
        Err(EngineError::Configuration(_))
    ));
}

#[test]
fn an_eos_id_beyond_the_token_range_is_a_configuration_error() {
    let config = DecoderConfig {
        pad_token_id: 0,
        eos_token_id: u32::MAX as usize + 1,
        decoder_start_token_id: Some(2),
        use_cache: true,
    };
    assert!(matches!(config.stop_token(), Err(EngineError::Configuration(_))));
    assert!(matches!(
        GenerationEngine::new(&config, 64, 512),
        Err(EngineError::Configuration(_))
    ));
}

#[test]
fn the_largest_token_id_is_accepted() {
    let config = DecoderConfig {
        pad_token_id: u32::MAX as usize,
        eos_token_id: u32::MAX as usize,
        decoder_start_token_id: None,
        use_cache: false,
    };
    assert_eq!(config.start_token().unwrap(), u32::MAX);
    assert_eq!(config.stop_token().unwrap(), u32::MAX);
    let engine = GenerationEngine::new(&config, 64, 512).unwrap();
    assert_eq!(engine.output(), &[u32::MAX]);
}

#[test]
fn an_accepted_token_is_appended_and_emitted() {
    let mut engine = GenerationEngine::new(&config(true), 64, 512).unwrap();
    assert_eq!(engine.accept(30), Some(30));
    assert_eq!(engine.output(), &[START, 30]);
    assert_eq!(engine.phase(), Phase::Stepping);
    assert_eq!(engine.tokens_generated(), 1);
    assert_eq!(engine.accept(31), Some(31));
    assert_eq!(engine.output(), &[START, 30, 31]);
    assert_eq!(engine.tokens_generated(), 2);
}

#[test]
fn the_stop_token_ends_the_run_without_being_appended() {
    let mut engine = GenerationEngine::new(&config(true), 64, 512).unwrap();
    assert_eq!(engine.accept(30), Some(30));
    assert_eq!(engine.accept(EOS), None);
    assert_eq!(engine.output(), &[START, 30]);
    assert_eq!(engine.phase(), Phase::Done);
    assert!(engine.is_done());
}

#[test]
fn a_finished_run_takes_nothing_in() {
    let mut engine = GenerationEngine::new(&config(true), 64, 512).unwrap();
    engine.accept(EOS);
    assert_eq!(engine.accept(30), None);
    assert_eq!(engine.output(), &[START]);
    assert!(engine.is_done());
}

#[test]
fn stop_token_short_circuit() {
    let mut engine = GenerationEngine::new(&config(true), 64, 512).unwrap();
    let mut fragments = 0;
    let mut calls = 0;
    while !engine.is_done() {
        calls += 1;
        if engine.accept(EOS).is_some() {
            fragments += 1;
        }
    }
    assert_eq!(fragments, 0);
    assert_eq!(calls, 1);
    assert_eq!(engine.output(), &[START]);
    assert_eq!(engine.tokens_generated(), 0);
    assert_eq!(drive(false, 512, always_eos), (vec![START], 1));
}

#[test]
fn the_output_never_exceeds_the_bound() {
    for max_tokens in [0usize, 1, 2, 5, 17] {
        for use_cache in [false, true] {
            let (output, calls) = drive(use_cache, max_tokens, never_eos);
            assert_eq!(output.len(), max_tokens + 1);
            assert_eq!(calls, max_tokens);
        }
    }
}

#[test]
fn the_hard_cap_gives_the_start_token_and_512_more() {
    let (output, calls) = drive(true, MAX_OUTPUT_TOKENS, never_eos);
    assert_eq!(output.len(), 513);
    assert_eq!(calls, 512);
}

#[test]
fn a_run_with_no_tokens_allowed_is_over_at_once() {
    let mut engine = GenerationEngine::new(&config(true), 64, 0).unwrap();
    assert!(engine.is_done());
    assert_eq!(engine.phase(), Phase::Done);
    assert_eq!(engine.accept(30), None);
    assert_eq!(engine.output(), &[START]);
}

#[test]
fn the_run_is_done_when_the_last_allowed_token_is_taken() {
    let mut engine = GenerationEngine::new(&config(true), 64, 2).unwrap();
    assert_eq!(engine.accept(30), Some(30));
    assert!(!engine.is_done());
    assert_eq!(engine.accept(31), Some(31));
    assert!(engine.is_done());
    assert_eq!(engine.accept(32), None);
    assert_eq!(engine.output(), &[START, 30, 31]);
}

#[test]
fn the_first_input_is_the_whole_output() {
    for use_cache in [false, true] {
        let engine = GenerationEngine::new(&config(use_cache), 64, 512).unwrap();
        assert_eq!(engine.decoder_input(), &[START]);
    }
}

#[test]
fn with_caching_later_inputs_are_the_newest_token() {
    let mut engine = GenerationEngine::new(&config(true), 64, 512).unwrap();
    engine.accept(30);
    assert_eq!(engine.decoder_input(), &[30]);
    engine.accept(31);
    assert_eq!(engine.decoder_input(), &[31]);
}

#[test]
fn without_caching_every_input_is_the_whole_output() {
    let mut engine = GenerationEngine::new(&config(false), 64, 512).unwrap();
    engine.accept(30);
    assert_eq!(engine.decoder_input(), &[START, 30]);
    engine.accept(31);
    assert_eq!(engine.decoder_input(), &[START, 30, 31]);
}

#[test]
fn cache_path_equivalence() {
    let cached = drive(true, 512, sum_mod);
    let uncached = drive(false, 512, sum_mod);
    assert_eq!(cached, uncached);
    assert_eq!(cached.0, vec![START, 12, 14, 13, 11, 12]);
    assert_eq!(cached.1, 6);
    assert_eq!(drive(true, 3, sum_mod), drive(false, 3, sum_mod));
    assert_eq!(drive(true, 9, never_eos), drive(false, 9, never_eos));
}

#[test]
fn the_history_window_is_the_tail_of_the_output() {
    let mut engine = GenerationEngine::new(&config(true), 3, 512).unwrap();
    assert_eq!(engine.history_window(), &[START]);
    engine.accept(30);
    engine.accept(31);
    assert_eq!(engine.history_window(), &[START, 30, 31]);
    engine.accept(32);
    assert_eq!(engine.history_window(), &[30, 31, 32]);
    engine.accept(33);
    assert_eq!(engine.history_window(), &[31, 32, 33]);
}

#[test]
fn a_window_of_width_zero_is_empty() {
    let mut engine = GenerationEngine::new(&config(true), 0, 512).unwrap();
    assert_eq!(engine.history_window(), &[] as &[u32]);
    engine.accept(30);
    assert_eq!(engine.history_window(), &[] as &[u32]);
}

#[test]
fn end_to_end_scenario() {
    let prompt = source_prompt("es", "Hello");
    assert!(prompt.starts_with("<2es>"));
    let tokenize = |text: &str| {
        assert_eq!(text, "<2es>Hello");
        Ok(vec![10, 20])
    };
    let vocabulary = |token: u32| if token == 30 { Some("\u{2581}Hola") } else { None };
    let source_ids = accepted_ids(tokenize(&prompt)).unwrap();
    assert_eq!(source_ids, vec![10, 20]);

    let mut engine = GenerationEngine::new(&config(true), 64, MAX_OUTPUT_TOKENS).unwrap();
    let answers = [30, EOS];
    let mut calls = 0;
    let mut fragments: Vec<String> = Vec::new();
    while !engine.is_done() {
        let candidate = answers[calls];
        calls += 1;
        if let Some(token) = engine.accept(candidate) {
            if let Some(piece) = vocabulary(token) {
                fragments.push(display_fragment(piece));
            }
        }
    }
    assert_eq!(engine.output(), &[START, 30]);
    assert_eq!(fragments, vec![" Hola".to_string()]);
    assert_eq!(calls, 2);
    assert_eq!(engine.tokens_generated(), 1);
    assert_eq!(engine.phase(), Phase::Done);
}
