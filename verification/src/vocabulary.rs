use vstd::prelude::*;
use tokenizers::Tokenizer;
use crate::error::EngineError;
use crate::text::{display_fragment, display_text, prompt_text, source_prompt};

verus! {

#[verifier::external_type_specification]
#[verifier::external_body]
pub struct ExTokenizer(Tokenizer);

/// The vocabulary of a tokenizer: the text of each token id that it knows.
pub uninterp spec fn vocabulary_of(tokenizer: Tokenizer) -> Map<u32, Seq<char>>;

/// Whether a tokenizer truncates or pads what it encodes.
pub uninterp spec fn limits_of(tokenizer: Tokenizer) -> bool;

/// Whether `ids` is an encoding that the tokenizer can give for `text`, with
/// special tokens added. A tokenizer that draws can give more than one.
pub uninterp spec fn can_encode(tokenizer: Tokenizer, text: Seq<char>, ids: Seq<u32>) -> bool;

/// `Tokenizer::with_padding` and `Tokenizer::with_truncation`, each with
/// `None`, with which neither can fail: the tokenizer then neither pads nor
/// truncates, and its vocabulary is as before.
#[verifier::external_body]
fn without_limits(tokenizer: &mut Tokenizer)
    ensures
        !limits_of(*final(tokenizer)),
        vocabulary_of(*final(tokenizer)) == vocabulary_of(*old(tokenizer)),
{
    tokenizer.with_padding(None);
    let _ = tokenizer.with_truncation(None);
}

/// `Tokenizer::id_to_token`: the vocabulary entry of `id`, or `None` for an
/// id that the vocabulary does not hold.
#[verifier::external_body]
fn piece_of(tokenizer: &Tokenizer, id: u32) -> (piece: Option<String>)
    ensures
        piece matches Some(text) ==> vocabulary_of(*tokenizer).contains_key(id)
            && vocabulary_of(*tokenizer)[id] == text@,
        piece is None ==> !vocabulary_of(*tokenizer).contains_key(id),
{
    tokenizer.id_to_token(id)
}

/// `Tokenizer::encode` with special tokens added, on a tokenizer that
/// neither truncates nor pads, and the ids of the encoding from
/// `Encoding::get_ids`; on failure the message of the error. The ids are an
/// encoding of this text by this tokenizer; nothing more is claimed of them.
#[verifier::external_body]
fn token_ids(tokenizer: &Tokenizer, text: &str) -> (r: Result<Vec<u32>, String>)
    requires
        !limits_of(*tokenizer),
    ensures
        r matches Ok(ids) ==> can_encode(*tokenizer, text@, ids@),
{
    match tokenizer.encode(text, true) {
        Ok(encoding) => Ok(encoding.get_ids().to_vec()),
        Err(failure) => Err(failure.to_string()),
    }
}

/// One accepted token and the text to show for it.
#[derive(Debug)]
pub struct Fragment {
    /// The token that was appended to the output.
    pub token: u32,
    /// Its text, or `None` if the vocabulary has no entry for the token. The
    /// token counts as generated either way.
    pub text: Option<String>,
}

impl Fragment {
    /// The text as a sequence of characters.
    pub open spec fn shows(&self) -> Option<Seq<char>> {
        match self.text {
            Some(text) => Some(text@),
            None => None,
        }
    }
}

/// What is shown for `token` under a vocabulary.
pub open spec fn shown(vocabulary: Map<u32, Seq<char>>, token: u32) -> Option<Seq<char>> {
    if vocabulary.contains_key(token) {
        Some(display_text(vocabulary[token]))
    } else {
        None
    }
}

/// The message of the failure on a source text without tokens.
pub const NO_TOKENS: &'static str = "the source text has no tokens";

/// Takes the tokenizer's answer in. Its ids are handed on if there is at
/// least one; no id at all, or a failure of the tokenizer, is a
/// `Tokenization` error, the latter with the tokenizer's message.
pub fn accepted_ids(outcome: Result<Vec<u32>, String>) -> (r: Result<Vec<u32>, EngineError>)
    ensures
        match outcome {
            Ok(ids) => if ids@.len() >= 1 {
                r == Ok::<Vec<u32>, EngineError>(ids)
            } else {
                r is Err && r->Err_0 is Tokenization && r->Err_0.spec_message()@ == NO_TOKENS@
            },
            Err(message) => r == Err::<Vec<u32>, EngineError>(EngineError::Tokenization(message)),
        },
{
    match outcome {
        Ok(ids) => {
            if ids.len() == 0 {
                Err(EngineError::Tokenization(NO_TOKENS.to_string()))
            } else {
                Ok(ids)
            }
        },
        Err(message) => Err(EngineError::Tokenization(message)),
    }
}

/// The ids of the source text behind its target-language prefix.
/// Truncation and padding are switched off first, so that every token of
/// the source is encoded. Fails with `Tokenization` if the tokenizer does or
/// if it returns no id at all.
pub fn tokenize(tokenizer: &mut Tokenizer, language_token: &str, text: &str) -> (r: Result<
    Vec<u32>,
    EngineError,
>)
    ensures
        r matches Ok(ids) ==> ids@.len() >= 1 && can_encode(
            *final(tokenizer),
            prompt_text(language_token@, text@),
            ids@,
        ),
        r matches Err(e) ==> e is Tokenization,
        !limits_of(*final(tokenizer)),
        vocabulary_of(*final(tokenizer)) == vocabulary_of(*old(tokenizer)),
{
    without_limits(tokenizer);
    let prompt = source_prompt(language_token, text);
    accepted_ids(token_ids(tokenizer, prompt.as_str()))
}

/// The fragment of an accepted token: its vocabulary entry with word
/// boundaries and line breaks restored, if it has one.
pub fn fragment_for(tokenizer: &Tokenizer, token: u32) -> (fragment: Fragment)
    ensures
        fragment.token == token,
        fragment.shows() == shown(vocabulary_of(*tokenizer), token),
{
    let text = match piece_of(tokenizer, token) {
        Some(piece) => Some(display_fragment(piece.as_str())),
        None => None,
    };
    Fragment { token, text }
}

} // verus!
