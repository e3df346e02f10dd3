use script_kit_core::Cell;
use script_kit_core::ColorRef;
use script_kit_core::StyleFlags;
use script_kit_core::TerminalHandle;
use script_kit_core::color::Glyph;

fn blank() -> Cell {
    Cell {
        glyph: Glyph::Char(' '),
        fg: ColorRef::DefaultForeground,
        bg: ColorRef::DefaultBackground,
        flags: StyleFlags::none(),
    }
}

fn ch(c: char) -> Cell {
    Cell {
        glyph: Glyph::Char(c),
        ..blank()
    }
}

fn row_text(row: &Vec<Cell>) -> String {
    row.iter()
        .map(|cell| match cell.glyph {
            Glyph::Char(c) => c,
            Glyph::WideContinuation => '\u{0}',
        })
        .collect::<String>()
        .trim_end()
        .to_string()
}

#[test]
fn test_hello_carriage_return_line_feed() {
    // Feeding "Hello\r\n" into an empty 80x24 grid: row 0 reads
    // "Hello" padded with blanks, cursor lands at (1, 0).
    let mut term = TerminalHandle::new(80, 24);
    term.process(b"Hello\r\n");
    let lines = term.visible_lines();
    let expected = ['H', 'e', 'l', 'l', 'o'];
    for (i, e) in expected.iter().enumerate() {
        assert_eq!(lines[0][i], ch(*e));
    }
    for i in expected.len()..80 {
        assert_eq!(lines[0][i], blank());
    }
    assert_eq!(term.cursor_position(), (1, 0, true));
}

#[test]
fn test_red_text_cells() {
    // "\x1b[31mRed\x1b[0m": three printed cells carry the ANSI red
    // (index 1) foreground reference; the rendition is back to the
    // default afterwards.
    let mut term = TerminalHandle::new(80, 24);
    term.process(b"\x1b[31mRed\x1b[0m");
    let lines = term.visible_lines();
    for (i, e) in ['R', 'e', 'd'].iter().enumerate() {
        assert_eq!(
            lines[0][i],
            Cell {
                glyph: Glyph::Char(*e),
                fg: ColorRef::Indexed(1),
                ..blank()
            }
        );
    }
    // A character printed after the reset is back to default colors.
    let mut term2 = TerminalHandle::new(80, 24);
    term2.process(b"\x1b[31mRed\x1b[0mx");
    assert_eq!(term2.visible_lines()[0][3], ch('x'));
}

#[test]
fn test_line_feeds_at_bottom_push_scrollback() {
    // With the cursor on the last row, five line feeds push five rows
    // into the scrollback, oldest first, and the last rows are blank.
    let mut term = TerminalHandle::new(80, 24);
    term.process(b"A\x1b[2;1HB\x1b[3;1HC\x1b[4;1HD\x1b[5;1HE");
    term.process(b"\x1b[24;1H");
    for _ in 0..5 {
        term.process(b"\n");
    }
    assert_eq!(term.scrollback_line_count(), 5);
    for (i, e) in ['A', 'B', 'C', 'D', 'E'].iter().enumerate() {
        assert_eq!(row_text(term.scrollback_line(i)), e.to_string());
    }
    let lines = term.visible_lines();
    for r in 19..24 {
        for c in 0..80 {
            assert_eq!(lines[r][c], blank());
        }
    }
    assert_eq!(term.cursor_position().0, 23);
}

#[test]
fn test_resize_truncates_columns_and_clamps_cursor() {
    // Shrinking 80x24 to 40x24 discards row content beyond column 39
    // and clamps a cursor that sat past the new width.
    let mut term = TerminalHandle::new(80, 24);
    let fifty: Vec<u8> = (0..50u8).map(|i| b'0' + (i % 10)).collect();
    term.process(&fifty);
    assert_eq!(term.cursor_position().1, 50);
    term.resize(40, 24).unwrap();
    assert_eq!(term.size(), (40, 24));
    let lines = term.visible_lines();
    assert_eq!(lines[0].len(), 40);
    for i in 0..40 {
        assert_eq!(lines[0][i], ch((b'0' + (i % 10) as u8) as char));
    }
    assert_eq!(term.cursor_position(), (0, 39, true));
}

#[test]
fn test_resize_same_size_is_idempotent() {
    let mut term = TerminalHandle::new(80, 24);
    term.process(b"some content\r\nmore\x1b[31m!");
    term.resize(40, 20).unwrap();
    let lines1 = term.visible_lines().clone();
    let cursor1 = term.cursor_position();
    let sb1 = term.scrollback_line_count();
    term.resize(40, 20).unwrap();
    assert_eq!(term.visible_lines(), &lines1);
    assert_eq!(term.cursor_position(), cursor1);
    assert_eq!(term.scrollback_line_count(), sb1);
}

#[test]
fn test_resize_rejects_zero() {
    let mut term = TerminalHandle::new(80, 24);
    term.process(b"keep");
    assert!(term.resize(0, 24).is_err());
    assert!(term.resize(80, 0).is_err());
    assert_eq!(term.size(), (80, 24));
    assert_eq!(row_text(&term.visible_lines()[0]), "keep");
}

#[test]
fn test_scrollback_capacity_is_a_bound() {
    // More line feeds than the configured capacity never retain more
    // than capacity + rows lines in total.
    let mut term = TerminalHandle::with_scrollback(10, 5, 3);
    for _ in 0..20 {
        term.process(b"\x1b[5;1H\n");
    }
    assert!(term.scrollback_line_count() <= 3);
    assert!(term.scrollback_line_count() + 5 <= 3 + 5);
    assert_eq!(term.scrollback_lines(), 3);
}

#[test]
fn test_scrollback_evicts_oldest() {
    let mut term = TerminalHandle::with_scrollback(10, 2, 2);
    // Each printed digit scrolls off eventually; capacity 2 keeps the
    // two most recent rows.
    term.process(b"1\x1b[2;1H2\x1b[2;1H\n3\x1b[2;1H\n4\x1b[2;1H\n");
    assert_eq!(term.scrollback_line_count(), 2);
    assert_eq!(row_text(term.scrollback_line(0)), "2");
    assert_eq!(row_text(term.scrollback_line(1)), "3");
}

#[test]
fn test_erase_display_clears_everything_cursor_stays() {
    let mut term = TerminalHandle::new(80, 24);
    term.process(b"lots of text\r\nsecond line");
    term.process(b"\x1b[2;5H");
    term.process(b"\x1b[2J");
    let lines = term.visible_lines();
    for r in 0..24 {
        for c in 0..80 {
            assert_eq!(lines[r][c], blank());
        }
    }
    assert_eq!(term.cursor_position(), (1, 4, true));
}

#[test]
fn test_erase_in_line_modes() {
    let mut term = TerminalHandle::new(10, 2);
    term.process(b"abcdef\x1b[1;3H\x1b[K");
    let lines = term.visible_lines();
    assert_eq!(row_text(&lines[0]), "ab");

    let mut term2 = TerminalHandle::new(10, 2);
    term2.process(b"abcdef\x1b[1;3H\x1b[1K");
    assert_eq!(row_text(&term2.visible_lines()[0]), "   def");

    let mut term3 = TerminalHandle::new(10, 2);
    term3.process(b"abcdef\x1b[2K");
    assert_eq!(row_text(&term3.visible_lines()[0]), "");
}

#[test]
fn test_sgr_reset_restores_baseline() {
    // Any run of style-setting codes followed by SGR 0 prints with the
    // baseline rendition again.
    let mut term = TerminalHandle::new(80, 24);
    term.process(b"\x1b[1;4;31;44m\x1b[0mx");
    assert_eq!(term.visible_lines()[0][0], ch('x'));
}

#[test]
fn test_sgr_styles_accumulate() {
    let mut term = TerminalHandle::new(80, 24);
    term.process(b"\x1b[1m\x1b[4m\x1b[32mx");
    let cell = term.visible_lines()[0][0];
    assert!(cell.flags.bold);
    assert!(cell.flags.underline);
    assert_eq!(cell.fg, ColorRef::Indexed(2));
}

#[test]
fn test_sgr_extended_colors() {
    let mut term = TerminalHandle::new(80, 24);
    term.process(b"\x1b[38;5;196ma\x1b[48;2;1;2;3mb");
    let lines = term.visible_lines();
    assert_eq!(lines[0][0].fg, ColorRef::Indexed(196));
    assert_eq!(lines[0][1].bg, ColorRef::Rgb(1, 2, 3));
}

#[test]
fn test_chunk_split_gives_same_result() {
    // A CSI sequence split at every byte boundary decodes exactly as
    // when fed whole.
    let seq = b"\x1b[31mA";
    let mut whole = TerminalHandle::new(20, 4);
    whole.process(seq);
    let expected_cell = whole.visible_lines()[0][0];
    let expected_cursor = whole.cursor_position();
    for split in 0..=seq.len() {
        let mut term = TerminalHandle::new(20, 4);
        term.process(&seq[..split]);
        term.process(&seq[split..]);
        assert_eq!(term.visible_lines()[0][0], expected_cell);
        assert_eq!(term.cursor_position(), expected_cursor);
    }
}

#[test]
fn test_utf8_across_chunks() {
    // A multi-byte character split across process() calls prints once.
    let bytes = "é".as_bytes();
    let mut term = TerminalHandle::new(20, 4);
    term.process(&bytes[..1]);
    term.process(&bytes[1..]);
    assert_eq!(term.visible_lines()[0][0], ch('é'));
    assert_eq!(term.cursor_position().1, 1);
}

#[test]
fn test_plain_utf8_prints_in_order() {
    let mut term = TerminalHandle::new(20, 4);
    term.process("héllo→𝄞".as_bytes());
    let lines = term.visible_lines();
    for (i, e) in "héllo→𝄞".chars().enumerate() {
        assert_eq!(lines[0][i], ch(e));
    }
}

#[test]
fn test_wide_character_occupies_two_columns() {
    let mut term = TerminalHandle::new(20, 4);
    term.process("你x".as_bytes());
    let lines = term.visible_lines();
    assert_eq!(lines[0][0], ch('你'));
    assert_eq!(
        lines[0][1],
        Cell {
            glyph: Glyph::WideContinuation,
            ..blank()
        }
    );
    assert_eq!(lines[0][2], ch('x'));
}

#[test]
fn test_autowrap_and_disable() {
    let mut term = TerminalHandle::new(4, 3);
    term.process(b"abcdef");
    let lines = term.visible_lines();
    assert_eq!(row_text(&lines[0]), "abcd");
    assert_eq!(row_text(&lines[1]), "ef");

    // With auto-wrap off, printing at the edge overwrites the last
    // column.
    let mut term2 = TerminalHandle::new(4, 3);
    term2.process(b"\x1b[?7labcdef");
    let lines2 = term2.visible_lines();
    assert_eq!(row_text(&lines2[0]), "abcf");
    assert_eq!(row_text(&lines2[1]), "");
}

#[test]
fn test_cursor_movement_clamps() {
    let mut term = TerminalHandle::new(10, 5);
    term.process(b"\x1b[99;99H");
    assert_eq!(term.cursor_position(), (4, 9, true));
    term.process(b"\x1b[99A\x1b[99D");
    assert_eq!(term.cursor_position(), (0, 0, true));
    term.process(b"\x1b[2B\x1b[3C");
    assert_eq!(term.cursor_position(), (2, 3, true));
}

#[test]
fn test_tab_and_backspace() {
    let mut term = TerminalHandle::new(20, 4);
    term.process(b"a\tb");
    assert_eq!(term.visible_lines()[0][8], ch('b'));
    term.process(b"\x08\x08c");
    assert_eq!(term.visible_lines()[0][7], ch('c'));
}

#[test]
fn test_scroll_region_line_feed() {
    // A scroll region away from the top scrolls only its rows, and
    // nothing reaches the scrollback.
    let mut term = TerminalHandle::new(10, 5);
    term.process(b"r0\x1b[2;1Hr1\x1b[3;1Hr2\x1b[4;1Hr3\x1b[5;1Hr4");
    term.process(b"\x1b[2;4r");
    term.process(b"\x1b[4;1H\n");
    let lines = term.visible_lines();
    assert_eq!(row_text(&lines[0]), "r0");
    assert_eq!(row_text(&lines[1]), "r2");
    assert_eq!(row_text(&lines[2]), "r3");
    assert_eq!(row_text(&lines[3]), "");
    assert_eq!(row_text(&lines[4]), "r4");
    assert_eq!(term.scrollback_line_count(), 0);
}

#[test]
fn test_save_restore_cursor() {
    let mut term = TerminalHandle::new(80, 24);
    term.process(b"\x1b[5;10H\x1b7\x1b[1;1H\x1b8");
    assert_eq!(term.cursor_position(), (4, 9, true));
}

#[test]
fn test_alternate_screen_round_trip() {
    let mut term = TerminalHandle::new(20, 5);
    term.process(b"primary\x1b[?1049h");
    // The alternate screen starts blank with the cursor home.
    assert_eq!(row_text(&term.visible_lines()[0]), "");
    assert_eq!(term.cursor_position(), (0, 0, true));
    term.process(b"alt text");
    // Scrolling in the alternate screen feeds no scrollback.
    term.process(b"\x1b[5;1H\n\n");
    assert_eq!(term.scrollback_line_count(), 0);
    term.process(b"\x1b[?1049l");
    assert_eq!(row_text(&term.visible_lines()[0]), "primary");
    assert_eq!(term.cursor_position(), (0, 7, true));
}

#[test]
fn test_cursor_visibility_toggle() {
    let mut term = TerminalHandle::new(80, 24);
    assert!(term.cursor_position().2);
    term.process(b"\x1b[?25l");
    assert!(!term.cursor_position().2);
    term.process(b"\x1b[?25h");
    assert!(term.cursor_position().2);
}

#[test]
fn test_window_title_sequences() {
    let mut term = TerminalHandle::new(80, 24);
    term.process(b"\x1b]0;My Title\x07");
    assert_eq!(term.title(), b"My Title");
    term.process(b"\x1b]2;Other\x1b\\");
    assert_eq!(term.title(), b"Other");
}

#[test]
fn test_malformed_sequences_are_discarded() {
    let mut term = TerminalHandle::new(20, 4);
    // Unknown final byte, cancelled sequence, stray continuation
    // bytes: none of it prints or breaks later output.
    term.process(b"\x1b[99q\x1b[3\x18x\x80\xffy");
    assert_eq!(row_text(&term.visible_lines()[0]), "xy");
}

#[test]
fn test_full_reset() {
    let mut term = TerminalHandle::new(20, 4);
    term.process(b"\x1b[31mtext\x1b[2;4r\x1bc");
    let lines = term.visible_lines();
    for r in 0..4 {
        for c in 0..20 {
            assert_eq!(lines[r][c], blank());
        }
    }
    assert_eq!(term.cursor_position(), (0, 0, true));
    term.process(b"z");
    assert_eq!(term.visible_lines()[0][0], ch('z'));
}

#[test]
fn test_default_terminal() {
    let term = TerminalHandle::default();
    assert_eq!(term.size(), (80, 24));
    assert_eq!(term.scrollback_lines(), 10000);
}

#[test]
fn test_resize_shrink_rows_keeps_cursor_visible() {
    let mut term = TerminalHandle::new(10, 6);
    term.process(b"a\x1b[2;1Hb\x1b[3;1Hc\x1b[4;1Hd\x1b[5;1He\x1b[6;1Hf");
    // Cursor sits on the last row; shrinking keeps the bottom rows.
    term.resize(10, 3).unwrap();
    let lines = term.visible_lines();
    assert_eq!(row_text(&lines[0]), "d");
    assert_eq!(row_text(&lines[1]), "e");
    assert_eq!(row_text(&lines[2]), "f");
    assert_eq!(term.cursor_position().0, 2);
    // The dropped top rows went to the scrollback, oldest first.
    assert_eq!(term.scrollback_line_count(), 3);
    assert_eq!(row_text(term.scrollback_line(0)), "a");
    assert_eq!(row_text(term.scrollback_line(1)), "b");
    assert_eq!(row_text(term.scrollback_line(2)), "c");
}

#[test]
fn test_resize_grow_pads_with_blanks() {
    let mut term = TerminalHandle::new(4, 2);
    term.process(b"ab");
    term.resize(8, 4).unwrap();
    let lines = term.visible_lines();
    assert_eq!(lines.len(), 4);
    assert_eq!(lines[0].len(), 8);
    assert_eq!(row_text(&lines[0]), "ab");
    for r in 2..4 {
        for c in 0..8 {
            assert_eq!(lines[r][c], blank());
        }
    }
}

#[test]
fn test_erase_uses_current_rendition() {
    // Cleared cells take the current rendition's colors, as xterm's
    // background color erase does.
    let mut term = TerminalHandle::new(10, 2);
    term.process(b"\x1b[44m\x1b[2J");
    let lines = term.visible_lines();
    for r in 0..2 {
        for c in 0..10 {
            assert_eq!(lines[r][c].bg, ColorRef::Indexed(4));
            assert_eq!(lines[r][c].glyph, Glyph::Char(' '));
        }
    }
}

#[test]
fn test_scroll_up_command() {
    let mut term = TerminalHandle::new(10, 3);
    term.process(b"a\x1b[2;1Hb\x1b[3;1Hc");
    term.process(b"\x1b[2S");
    let lines = term.visible_lines();
    assert_eq!(row_text(&lines[0]), "c");
    assert_eq!(row_text(&lines[1]), "");
    assert_eq!(row_text(&lines[2]), "");
    assert_eq!(term.scrollback_line_count(), 2);
    assert_eq!(row_text(term.scrollback_line(0)), "a");
    assert_eq!(row_text(term.scrollback_line(1)), "b");
}
