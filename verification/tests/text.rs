use madlad400::text::{display_fragment, source_prompt, WORD_BOUNDARY};

#[test]
fn the_prompt_puts_the_language_token_in_front() {
    assert_eq!(source_prompt("es", "Hello"), "<2es>Hello");
    assert_eq!(source_prompt("pt", "I love pizza!"), "<2pt>I love pizza!");
}

#[test]
fn the_prompt_of_empty_parts() {
    assert_eq!(source_prompt("", ""), "<2>");
    assert_eq!(source_prompt("de", ""), "<2de>");
}

#[test]
fn the_prompt_keeps_text_beyond_ascii() {
    assert_eq!(source_prompt("ja", "caf\u{e9} \u{2581}"), "<2ja>caf\u{e9} \u{2581}");
}

#[test]
fn the_word_boundary_is_the_lower_one_eighth_block() {
    assert_eq!(WORD_BOUNDARY, '\u{2581}');
}

#[test]
fn word_boundaries_become_spaces() {
    assert_eq!(display_fragment("\u{2581}Hola"), " Hola");
    assert_eq!(display_fragment("\u{2581}a\u{2581}\u{2581}b"), " a  b");
}

#[test]
fn newline_markers_become_line_breaks() {
    assert_eq!(display_fragment("<0x0A>"), "\n");
    assert_eq!(display_fragment("a<0x0A>b<0x0A>"), "a\nb\n");
    assert_eq!(display_fragment("<0x0A><0x0A>"), "\n\n");
}

#[test]
fn a_plain_piece_is_unchanged() {
    assert_eq!(display_fragment("mundo"), "mundo");
    assert_eq!(display_fragment(""), "");
    assert_eq!(display_fragment("\u{e9}\u{4e16}"), "\u{e9}\u{4e16}");
}

#[test]
fn near_markers_are_unchanged() {
    assert_eq!(display_fragment("<0x0A"), "<0x0A");
    assert_eq!(display_fragment("<0x0a>"), "<0x0a>");
    assert_eq!(display_fragment("<0x0B>"), "<0x0B>");
    assert_eq!(display_fragment("0x0A>"), "0x0A>");
    assert_eq!(display_fragment("<<0x0A>"), "<\n");
    assert_eq!(display_fragment("<0x0<0x0A>"), "<0x0\n");
}

#[test]
fn a_word_boundary_inside_a_marker_breaks_it() {
    assert_eq!(display_fragment("<0x\u{2581}0A>"), "<0x 0A>");
}

#[test]
fn both_conventions_in_one_piece() {
    assert_eq!(display_fragment("\u{2581}uno<0x0A>\u{2581}dos"), " uno\n dos");
}

#[test]
fn fragments_agree_with_two_replacements() {
    for piece in ["\u{2581}x<0x0A>", "<0x0A>\u{2581}", "<0<0x0A>x0A>", "<0x0A><0x0A>\u{2581}<0x0A", ">A0x0<"] {
        let expected = piece.replace('\u{2581}', " ").replace("<0x0A>", "\n");
        assert_eq!(display_fragment(piece), expected);
    }
}
