use vstd::prelude::*;
use vstd::string::StringExecFns;

verus! {

/// `String::push` appends the character to the end of the string.
pub assume_specification[ String::push ](text: &mut String, c: char)
    ensures
        final(text)@ == old(text)@.push(c),
;

/// The character that the tokenizer writes where a word begins.
pub const WORD_BOUNDARY: char = '\u{2581}';

/// The text that the tokenizer writes for a line break.
pub open spec fn newline_marker() -> Seq<char> {
    seq!['<', '0', 'x', '0', 'A', '>']
}

/// `s` with every word-boundary mark turned into a space.
pub open spec fn spaces_restored(s: Seq<char>) -> Seq<char> {
    s.map_values(|c: char| if c == WORD_BOUNDARY { ' ' } else { c })
}

/// `s` with every line-break marker, found from the left, turned into a
/// line break.
pub open spec fn newlines_restored(s: Seq<char>) -> Seq<char>
    decreases s.len(),
{
    if s.len() == 0 {
        s
    } else if newline_marker().is_prefix_of(s) {
        seq!['\n'] + newlines_restored(s.skip(6))
    } else {
        seq![s[0]] + newlines_restored(s.skip(1))
    }
}

/// What is shown for a token whose vocabulary entry is `piece`.
pub open spec fn display_text(piece: Seq<char>) -> Seq<char> {
    newlines_restored(spaces_restored(piece))
}

/// What the tokenizer is given: the language token between `<2` and `>`,
/// then the text.
pub open spec fn prompt_text(language_token: Seq<char>, text: Seq<char>) -> Seq<char> {
    seq!['<', '2'] + language_token + seq!['>'] + text
}

/// The source text with the target-language prefix in front of it.
pub fn source_prompt(language_token: &str, text: &str) -> (prompt: String)
    ensures
        prompt@ == prompt_text(language_token@, text@),
{
    proof {
        reveal_strlit("<2");
        reveal_strlit(">");
    }
    let mut prompt = String::from_str("<2");
    prompt.append(language_token);
    prompt.append(">");
    prompt.append(text);
    prompt
}

/// The characters of `piece` with every word-boundary mark turned into a
/// space.
fn spaced_chars(piece: &str) -> (chars: Vec<char>)
    ensures
        chars@ == spaces_restored(piece@),
{
    broadcast use vstd::string::axiom_spec_iter;

    let mut chars: Vec<char> = Vec::new();
    for c in it: piece.chars()
        invariant
            it.seq() == piece@,
            chars@ == spaces_restored(piece@.take(it.index())),
    {
        chars.push(if c == WORD_BOUNDARY { ' ' } else { c });
    }
    chars
}

/// Whether a line-break marker starts at position `at`.
fn marker_at(chars: &Vec<char>, at: usize) -> (found: bool)
    requires
        at <= chars.len(),
    ensures
        found == newline_marker().is_prefix_of(chars@.skip(at as int)),
{
    let found = chars.len() - at >= 6 && chars[at] == '<' && chars[at + 1] == '0' && chars[at + 2]
        == 'x' && chars[at + 3] == '0' && chars[at + 4] == 'A' && chars[at + 5] == '>';
    proof {
        let rest = chars@.skip(at as int);
        if !found && rest.len() >= 6 {
            let head = rest.subrange(0, 6);
            assert(head[0] == chars@[at + 0] && head[1] == chars@[at + 1] && head[2] == chars@[at
                + 2] && head[3] == chars@[at + 3] && head[4] == chars@[at + 4] && head[5]
                == chars@[at + 5]);
        }
    }
    found
}

/// The text to show for a token whose vocabulary entry is `piece`: word
/// boundaries become spaces, line-break markers become line breaks.
pub fn display_fragment(piece: &str) -> (text: String)
    ensures
        text@ == display_text(piece@),
{
    let chars = spaced_chars(piece);
    let mut text = String::new();
    let mut at: usize = 0;
    assert(chars@.skip(0) =~= chars@);
    while at < chars.len()
        invariant
            at <= chars.len(),
            newlines_restored(chars@) == text@ + newlines_restored(chars@.skip(at as int)),
        decreases chars.len() - at,
    {
        let ghost rest = chars@.skip(at as int);
        if marker_at(&chars, at) {
            text.push('\n');
            assert(rest.skip(6) =~= chars@.skip(at + 6));
            at += 6;
        } else {
            text.push(chars[at]);
            assert(rest.skip(1) =~= chars@.skip(at + 1));
            at += 1;
        }
    }
    text
}

} // verus!
