use script_kit_core::action::Action;
use script_kit_core::parser::Parser;

#[test]
fn test_plain_text_one_print_per_char() {
    let mut parser = Parser::new();
    let acts = parser.feed(b"AB c");
    assert_eq!(
        acts,
        vec![
            Action::Print('A'),
            Action::Print('B'),
            Action::Print(' '),
            Action::Print('c'),
        ]
    );
}

#[test]
fn test_multibyte_text_prints_scalars_in_order() {
    let mut parser = Parser::new();
    let acts = parser.feed("é→𝄞".as_bytes());
    assert_eq!(
        acts,
        vec![Action::Print('é'), Action::Print('→'), Action::Print('𝄞')]
    );
}

#[test]
fn test_csi_split_at_every_boundary() {
    // A CSI sequence split across two feed() calls at every byte
    // boundary yields exactly the actions of feeding it whole.
    let seq = b"\x1b[31m";
    let mut whole = Parser::new();
    let expected = whole.feed(seq);
    assert_eq!(
        expected,
        vec![Action::SetGraphicRendition(vec![Some(31)])]
    );
    for split in 0..=seq.len() {
        let mut parser = Parser::new();
        let mut acts = parser.feed(&seq[..split]);
        acts.extend(parser.feed(&seq[split..]));
        assert_eq!(acts, expected, "split at {}", split);
    }
}

#[test]
fn test_utf8_split_at_every_boundary() {
    let bytes = "𝄞".as_bytes();
    for split in 0..=bytes.len() {
        let mut parser = Parser::new();
        let mut acts = parser.feed(&bytes[..split]);
        acts.extend(parser.feed(&bytes[split..]));
        assert_eq!(acts, vec![Action::Print('𝄞')], "split at {}", split);
    }
}

#[test]
fn test_control_codes() {
    let mut parser = Parser::new();
    let acts = parser.feed(b"\r\n\t\x08\x07");
    assert_eq!(
        acts,
        vec![
            Action::CarriageReturn,
            Action::LineFeed,
            Action::Tab,
            Action::Backspace,
            Action::Bell,
        ]
    );
}

#[test]
fn test_csi_parameters() {
    let mut parser = Parser::new();
    assert_eq!(
        parser.feed(b"\x1b[2;3H"),
        vec![Action::CursorPosition(Some(2), Some(3))]
    );
    // An absent parameter stays absent: the grid supplies the default.
    assert_eq!(
        parser.feed(b"\x1b[;5H"),
        vec![Action::CursorPosition(None, Some(5))]
    );
    assert_eq!(parser.feed(b"\x1b[H"), vec![Action::CursorPosition(None, None)]);
    assert_eq!(
        parser.feed(b"\x1b[m"),
        vec![Action::SetGraphicRendition(vec![])]
    );
    assert_eq!(
        parser.feed(b"\x1b[38;5;196m"),
        vec![Action::SetGraphicRendition(vec![
            Some(38),
            Some(5),
            Some(196)
        ])]
    );
}

#[test]
fn test_private_modes() {
    let mut parser = Parser::new();
    assert_eq!(
        parser.feed(b"\x1b[?25l"),
        vec![Action::ResetMode(true, Some(25))]
    );
    assert_eq!(
        parser.feed(b"\x1b[?1049h"),
        vec![Action::SetMode(true, Some(1049))]
    );
    assert_eq!(parser.feed(b"\x1b[4h"), vec![Action::SetMode(false, Some(4))]);
}

#[test]
fn test_esc_dispatch() {
    let mut parser = Parser::new();
    assert_eq!(parser.feed(b"\x1b7"), vec![Action::SaveCursor]);
    assert_eq!(parser.feed(b"\x1b8"), vec![Action::RestoreCursor]);
    assert_eq!(parser.feed(b"\x1bc"), vec![Action::Reset]);
    // Charset selection consumes its designator silently.
    assert_eq!(parser.feed(b"\x1b(B"), vec![]);
}

#[test]
fn test_osc_title_terminators() {
    let mut parser = Parser::new();
    assert_eq!(
        parser.feed(b"\x1b]0;hello\x07"),
        vec![Action::WindowTitle(b"hello".to_vec())]
    );
    assert_eq!(
        parser.feed(b"\x1b]2;there\x1b\\"),
        vec![Action::WindowTitle(b"there".to_vec())]
    );
    // Other OSC commands are consumed without an action.
    assert_eq!(parser.feed(b"\x1b]52;c;xyz\x07"), vec![]);
}

#[test]
fn test_cancel_aborts_sequence() {
    let mut parser = Parser::new();
    let acts = parser.feed(b"\x1b[31\x18x");
    assert_eq!(acts, vec![Action::Print('x')]);
    let acts2 = parser.feed(b"\x1b[3\x1ay");
    assert_eq!(acts2, vec![Action::Print('y')]);
}

#[test]
fn test_malformed_input_is_discarded() {
    let mut parser = Parser::new();
    // A stray continuation byte, an overlong encoding and a lone lead
    // byte produce nothing; clean input afterwards still parses.
    let acts = parser.feed(b"\x80\xc0\xafa\xe2b");
    assert_eq!(acts, vec![Action::Print('a'), Action::Print('b')]);
}

#[test]
fn test_unknown_csi_final_ignored() {
    let mut parser = Parser::new();
    assert_eq!(parser.feed(b"\x1b[99q"), vec![]);
    // Sequences with intermediates this core does not decode are
    // discarded whole.
    assert_eq!(parser.feed(b"\x1b[1 q"), vec![]);
}

#[test]
fn test_dcs_is_swallowed() {
    let mut parser = Parser::new();
    let acts = parser.feed(b"\x1bPsome device control\x1b\\x");
    assert_eq!(acts, vec![Action::Print('x')]);
}
