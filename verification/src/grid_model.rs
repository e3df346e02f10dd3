//! The mathematical model of the terminal grid.
//!
//! [`GridModel`] is the value a [`crate::grid::Grid`] views to, and
//! [`spec_apply`] says exactly what applying one action to a grid
//! means. Every grid operation is total: coordinates clamp to the grid,
//! unknown parameters leave the grid unchanged, and nothing here can
//! fail — a terminal must never crash on child process output.

use vstd::prelude::*;

use crate::action::ActionView;
use crate::color::Attributes;
use crate::color::Cell;
use crate::color::spec_is_wide;

verus! {

/// The saved-cursor slot written by `ESC 7` / `CSI s`. A single slot:
/// the last save wins, and restore without a save is a no-op.
pub struct SavedCursorModel {
    pub row: int,
    pub col: int,
    pub attrs: Attributes,
}

/// What is set aside while the alternate screen buffer is active: the
/// primary screen's content and cursor.
#[verifier::ext_equal]
pub struct AltModel {
    pub cells: Seq<Seq<Cell>>,
    pub cursor_row: int,
    pub cursor_col: int,
}

/// The full state of a terminal grid.
#[verifier::ext_equal]
pub struct GridModel {
    pub cols: int,
    pub rows: int,
    /// The visible cell matrix, `rows` rows of `cols` cells.
    pub cells: Seq<Seq<Cell>>,
    pub cursor_row: int,
    pub cursor_col: int,
    pub cursor_visible: bool,
    /// Whether printing past the right edge wraps to the next line.
    pub wrap_mode: bool,
    /// Set after printing into the last column; the next printed
    /// character wraps first (when wrapping is on).
    pub wrap_pending: bool,
    pub saved: Option<SavedCursorModel>,
    /// Scroll region bounds, inclusive rows.
    pub scroll_top: int,
    pub scroll_bottom: int,
    /// The current rendition: applied to printed characters and to
    /// newly cleared cells.
    pub attrs: Attributes,
    /// Historical rows, oldest first.
    pub scrollback: Seq<Seq<Cell>>,
    pub scrollback_cap: int,
    /// `Some` while the alternate screen buffer is active.
    pub alt: Option<AltModel>,
    /// The window title, as set by the last OSC title sequence.
    pub title: Seq<u8>,
}

/// Well-formedness of a grid: dimensions are positive and fit the
/// resize interface, every row has exactly `cols` cells, the cursor and
/// the scroll region lie within bounds, and the scrollback never holds
/// more than its capacity.
pub open spec fn wf(g: GridModel) -> bool {
    &&& 1 <= g.rows <= 0xFFFF
    &&& 1 <= g.cols <= 0xFFFF
    &&& g.cells.len() == g.rows
    &&& forall|r: int| 0 <= r < g.rows ==> (#[trigger] g.cells[r]).len() == g.cols
    &&& 0 <= g.cursor_row < g.rows
    &&& 0 <= g.cursor_col < g.cols
    &&& 0 <= g.scroll_top <= g.scroll_bottom < g.rows
    &&& 0 <= g.scrollback_cap
    &&& g.scrollback.len() <= g.scrollback_cap
    &&& match g.saved {
        Some(s) => 0 <= s.row && 0 <= s.col,
        None => true,
    }
    &&& match g.alt {
        Some(a) => {
            &&& a.cells.len() == g.rows
            &&& (forall|r: int| 0 <= r < g.rows ==> (#[trigger] a.cells[r]).len() == g.cols)
            &&& 0 <= a.cursor_row < g.rows
            &&& 0 <= a.cursor_col < g.cols
        },
        None => true,
    }
}

/// A row of `cols` blank cells under the given rendition.
pub open spec fn blank_row(cols: int, attrs: Attributes) -> Seq<Cell> {
    Seq::new(cols as nat, |i: int| Cell::spec_blank(attrs))
}

/// The screen with one cell replaced.
pub open spec fn write_cell(cells: Seq<Seq<Cell>>, r: int, c: int, cell: Cell) -> Seq<Seq<Cell>> {
    cells.update(r, cells[r].update(c, cell))
}

/// A row with the cells in `[start, end)` replaced by `cell`.
pub open spec fn fill_range(row: Seq<Cell>, start: int, end: int, cell: Cell) -> Seq<Cell> {
    Seq::new(row.len(), |i: int| if start <= i < end { cell } else { row[i] })
}

/// A numeric parameter, or the command's default where it was absent.
pub open spec fn n_or(p: Option<u16>, d: int) -> int {
    match p {
        Some(v) => v as int,
        None => d,
    }
}

/// A cursor movement count: defaults to 1, and 0 means 1.
pub open spec fn move_count(p: Option<u16>) -> int {
    let v = n_or(p, 1);
    if v == 0 {
        1
    } else {
        v
    }
}

pub open spec fn clamp(v: int, lo: int, hi: int) -> int {
    if v < lo {
        lo
    } else if v > hi {
        hi
    } else {
        v
    }
}

/// The scrollback after a row leaves the top of the screen: the row is
/// appended, and the oldest row is evicted once the buffer is full. A
/// capacity of zero retains nothing.
pub open spec fn sb_push(sb: Seq<Seq<Cell>>, cap: int, row: Seq<Cell>) -> Seq<Seq<Cell>> {
    if cap <= 0 {
        sb
    } else if sb.len() < cap {
        sb.push(row)
    } else {
        sb.subrange(1, sb.len() as int).push(row)
    }
}

/// The scroll region moved up one line: its top row leaves (into the
/// scrollback, when the region starts at the grid top and the primary
/// screen is active) and a blank row enters at the bottom.
pub open spec fn scroll_up_one(g: GridModel) -> GridModel {
    let leaving = g.cells[g.scroll_top];
    let sb = if g.scroll_top == 0 && g.alt is None {
        sb_push(g.scrollback, g.scrollback_cap, leaving)
    } else {
        g.scrollback
    };
    let cells = Seq::new(
        g.cells.len(),
        |i: int|
            if g.scroll_top <= i < g.scroll_bottom {
                g.cells[i + 1]
            } else if i == g.scroll_bottom {
                blank_row(g.cols, g.attrs)
            } else {
                g.cells[i]
            },
    );
    GridModel { cells, scrollback: sb, ..g }
}

/// The scroll region moved down one line: a blank row enters at the
/// top and the bottom row is discarded.
pub open spec fn scroll_down_one(g: GridModel) -> GridModel {
    let cells = Seq::new(
        g.cells.len(),
        |i: int|
            if g.scroll_top < i <= g.scroll_bottom {
                g.cells[i - 1]
            } else if i == g.scroll_top {
                blank_row(g.cols, g.attrs)
            } else {
                g.cells[i]
            },
    );
    GridModel { cells, ..g }
}

pub open spec fn scroll_up_n(g: GridModel, n: int) -> GridModel
    decreases n,
{
    if n <= 0 {
        g
    } else {
        scroll_up_n(scroll_up_one(g), n - 1)
    }
}

pub open spec fn scroll_down_n(g: GridModel, n: int) -> GridModel
    decreases n,
{
    if n <= 0 {
        g
    } else {
        scroll_down_n(scroll_down_one(g), n - 1)
    }
}

/// The cursor moved down one line, scrolling when it stands on the
/// scroll region's bottom row.
pub open spec fn advance_line(g: GridModel) -> GridModel {
    if g.cursor_row == g.scroll_bottom {
        scroll_up_one(g)
    } else if g.cursor_row + 1 < g.rows {
        GridModel { cursor_row: g.cursor_row + 1, ..g }
    } else {
        g
    }
}

/// Erase in line. Mode 0 clears from the cursor to the end of the
/// line, 1 from the start through the cursor, 2 the whole line; any
/// other mode does nothing. Cells take the current rendition; the
/// cursor does not move.
pub open spec fn erase_line(g: GridModel, mode: int) -> GridModel {
    let row = g.cells[g.cursor_row];
    let blank = Cell::spec_blank(g.attrs);
    if mode == 0 {
        GridModel {
            cells: g.cells.update(g.cursor_row, fill_range(row, g.cursor_col, g.cols, blank)),
            ..g
        }
    } else if mode == 1 {
        GridModel {
            cells: g.cells.update(g.cursor_row, fill_range(row, 0, g.cursor_col + 1, blank)),
            ..g
        }
    } else if mode == 2 {
        GridModel { cells: g.cells.update(g.cursor_row, blank_row(g.cols, g.attrs)), ..g }
    } else {
        g
    }
}

/// Erase in display. Mode 0 clears from the cursor to the end of the
/// screen, 1 from the start through the cursor, 2 the whole screen,
/// 3 the scrollback; any other mode does nothing. The cursor does not
/// move.
pub open spec fn erase_display(g: GridModel, mode: int) -> GridModel {
    let blank = Cell::spec_blank(g.attrs);
    if mode == 0 {
        let cells = Seq::new(
            g.cells.len(),
            |r: int|
                if r > g.cursor_row {
                    blank_row(g.cols, g.attrs)
                } else if r == g.cursor_row {
                    fill_range(g.cells[r], g.cursor_col, g.cols, blank)
                } else {
                    g.cells[r]
                },
        );
        GridModel { cells, ..g }
    } else if mode == 1 {
        let cells = Seq::new(
            g.cells.len(),
            |r: int|
                if r < g.cursor_row {
                    blank_row(g.cols, g.attrs)
                } else if r == g.cursor_row {
                    fill_range(g.cells[r], 0, g.cursor_col + 1, blank)
                } else {
                    g.cells[r]
                },
        );
        GridModel { cells, ..g }
    } else if mode == 2 {
        GridModel { cells: Seq::new(g.cells.len(), |r: int| blank_row(g.cols, g.attrs)), ..g }
    } else if mode == 3 {
        GridModel { scrollback: Seq::empty(), ..g }
    } else {
        g
    }
}

/// One simple SGR code applied to the current rendition. Codes this
/// core does not track are ignored.
pub open spec fn sgr_one(a: Attributes, code: int) -> Attributes {
    if code == 0 {
        Attributes::spec_baseline()
    } else if code == 1 {
        Attributes { flags: crate::color::StyleFlags { bold: true, ..a.flags }, ..a }
    } else if code == 3 {
        Attributes { flags: crate::color::StyleFlags { italic: true, ..a.flags }, ..a }
    } else if code == 4 {
        Attributes { flags: crate::color::StyleFlags { underline: true, ..a.flags }, ..a }
    } else if code == 7 {
        Attributes { flags: crate::color::StyleFlags { reverse: true, ..a.flags }, ..a }
    } else if code == 8 {
        Attributes { flags: crate::color::StyleFlags { invisible: true, ..a.flags }, ..a }
    } else if code == 9 {
        Attributes { flags: crate::color::StyleFlags { strikethrough: true, ..a.flags }, ..a }
    } else if code == 22 {
        Attributes { flags: crate::color::StyleFlags { bold: false, ..a.flags }, ..a }
    } else if code == 23 {
        Attributes { flags: crate::color::StyleFlags { italic: false, ..a.flags }, ..a }
    } else if code == 24 {
        Attributes { flags: crate::color::StyleFlags { underline: false, ..a.flags }, ..a }
    } else if code == 27 {
        Attributes { flags: crate::color::StyleFlags { reverse: false, ..a.flags }, ..a }
    } else if code == 28 {
        Attributes { flags: crate::color::StyleFlags { invisible: false, ..a.flags }, ..a }
    } else if code == 29 {
        Attributes { flags: crate::color::StyleFlags { strikethrough: false, ..a.flags }, ..a }
    } else if 30 <= code <= 37 {
        Attributes { fg: crate::color::ColorRef::Indexed((code - 30) as u8), ..a }
    } else if code == 39 {
        Attributes { fg: crate::color::ColorRef::DefaultForeground, ..a }
    } else if 40 <= code <= 47 {
        Attributes { bg: crate::color::ColorRef::Indexed((code - 40) as u8), ..a }
    } else if code == 49 {
        Attributes { bg: crate::color::ColorRef::DefaultBackground, ..a }
    } else if 90 <= code <= 97 {
        Attributes { fg: crate::color::ColorRef::Indexed((code - 90 + 8) as u8), ..a }
    } else if 100 <= code <= 107 {
        Attributes { bg: crate::color::ColorRef::Indexed((code - 100 + 8) as u8), ..a }
    } else {
        a
    }
}

/// The SGR parameter list folded over the rendition, in order: a later
/// parameter overrides an earlier one. `38` / `48` consume their
/// `5;index` or `2;r;g;b` sub-parameters.
pub open spec fn spec_sgr(a: Attributes, ps: Seq<Option<u16>>) -> Attributes
    decreases ps.len(),
{
    if ps.len() == 0 {
        a
    } else {
        let code = n_or(ps[0], 0);
        if code == 38 || code == 48 {
            if ps.len() >= 3 && ps[1] == Some(5u16) {
                let n = n_or(ps[2], 0);
                let a2 = if 0 <= n <= 255 {
                    if code == 38 {
                        Attributes { fg: crate::color::ColorRef::Indexed(n as u8), ..a }
                    } else {
                        Attributes { bg: crate::color::ColorRef::Indexed(n as u8), ..a }
                    }
                } else {
                    a
                };
                spec_sgr(a2, ps.skip(3))
            } else if ps.len() >= 5 && ps[1] == Some(2u16) {
                let r = n_or(ps[2], 0);
                let gr = n_or(ps[3], 0);
                let b = n_or(ps[4], 0);
                let a2 = if 0 <= r <= 255 && 0 <= gr <= 255 && 0 <= b <= 255 {
                    if code == 38 {
                        Attributes {
                            fg: crate::color::ColorRef::Rgb(r as u8, gr as u8, b as u8),
                            ..a
                        }
                    } else {
                        Attributes {
                            bg: crate::color::ColorRef::Rgb(r as u8, gr as u8, b as u8),
                            ..a
                        }
                    }
                } else {
                    a
                };
                spec_sgr(a2, ps.skip(5))
            } else {
                // Malformed extended color: the introducer alone is
                // ignored.
                spec_sgr(a, ps.skip(1))
            }
        } else {
            spec_sgr(sgr_one(a, code), ps.skip(1))
        }
    }
}

/// A printed character. Wrap-pending is honored first; the glyph takes
/// the current rendition; a double-width glyph writes its continuation
/// marker into the following column when it fits, and wraps (or is
/// dropped, with wrapping off) when it does not.
pub open spec fn spec_print(g: GridModel, c: char) -> GridModel {
    let g1 = if g.wrap_pending && g.wrap_mode {
        advance_line(GridModel { cursor_col: 0, wrap_pending: false, ..g })
    } else {
        GridModel { wrap_pending: false, ..g }
    };
    if !spec_is_wide(c) {
        let g2 = GridModel {
            cells: write_cell(
                g1.cells,
                g1.cursor_row,
                g1.cursor_col,
                Cell::spec_glyph(c, g1.attrs),
            ),
            ..g1
        };
        if g2.cursor_col + 1 < g2.cols {
            GridModel { cursor_col: g2.cursor_col + 1, ..g2 }
        } else {
            GridModel { wrap_pending: true, ..g2 }
        }
    } else {
        if g1.cursor_col + 1 < g1.cols {
            wide_write(g1, c)
        } else if g1.wrap_mode && g1.cols >= 2 {
            wide_write(advance_line(GridModel { cursor_col: 0, ..g1 }), c)
        } else {
            // No room for both columns and no way to wrap: dropped.
            g1
        }
    }
}

/// A double-width glyph written at the cursor, which has at least one
/// column to its right: head cell, continuation cell, cursor past both
/// (or wrap-pending at the edge).
pub open spec fn wide_write(g: GridModel, c: char) -> GridModel {
    let cells1 = write_cell(g.cells, g.cursor_row, g.cursor_col, Cell::spec_glyph(c, g.attrs));
    let cells2 = write_cell(cells1, g.cursor_row, g.cursor_col + 1, Cell::spec_wide_tail(g.attrs));
    let g2 = GridModel { cells: cells2, ..g };
    if g2.cursor_col + 2 < g2.cols {
        GridModel { cursor_col: g2.cursor_col + 2, ..g2 }
    } else {
        GridModel { cursor_col: g2.cols - 1, wrap_pending: true, ..g2 }
    }
}

/// The scroll region set from 1-based inclusive bounds; out-of-range
/// or inverted bounds are ignored. A valid setting homes the cursor.
pub open spec fn set_region(g: GridModel, t: Option<u16>, b: Option<u16>) -> GridModel {
    let top = n_or(t, 1) - 1;
    let bottom = n_or(b, g.rows) - 1;
    if 0 <= top && top < bottom && bottom <= g.rows - 1 {
        GridModel {
            scroll_top: top,
            scroll_bottom: bottom,
            cursor_row: 0,
            cursor_col: 0,
            ..g
        }
    } else {
        g
    }
}

/// The saved cursor restored: position (clamped to the current bounds)
/// and rendition. Without a prior save this does nothing.
pub open spec fn restore_cursor(g: GridModel) -> GridModel {
    match g.saved {
        Some(s) => GridModel {
            cursor_row: clamp(s.row, 0, g.rows - 1),
            cursor_col: clamp(s.col, 0, g.cols - 1),
            attrs: s.attrs,
            ..g
        },
        None => g,
    }
}

/// The alternate screen buffer entered: the primary screen and cursor
/// are set aside, the active screen starts blank with the cursor home.
/// Entering twice has no further effect.
pub open spec fn enter_alt(g: GridModel) -> GridModel {
    match g.alt {
        Some(_) => g,
        None => GridModel {
            alt: Some(
                AltModel { cells: g.cells, cursor_row: g.cursor_row, cursor_col: g.cursor_col },
            ),
            cells: Seq::new(g.cells.len(), |r: int| blank_row(g.cols, g.attrs)),
            cursor_row: 0,
            cursor_col: 0,
            ..g
        },
    }
}

/// The alternate screen buffer left: the primary screen and cursor come
/// back, the secondary content is discarded. Without a prior enter this
/// does nothing.
pub open spec fn exit_alt(g: GridModel) -> GridModel {
    match g.alt {
        Some(a) => GridModel {
            cells: a.cells,
            cursor_row: a.cursor_row,
            cursor_col: a.cursor_col,
            alt: None,
            ..g
        },
        None => g,
    }
}

/// A mode set (`on == true`) or reset. Only the private modes this core
/// tracks have an effect: 7 auto-wrap, 25 cursor visibility, 47, 1047
/// and 1049 the alternate screen buffer.
pub open spec fn set_mode(g: GridModel, privat: bool, code: Option<u16>, on: bool) -> GridModel {
    if !privat {
        g
    } else {
        let m = n_or(code, 0);
        if m == 7 {
            GridModel { wrap_mode: on, ..g }
        } else if m == 25 {
            GridModel { cursor_visible: on, ..g }
        } else if m == 47 || m == 1047 || m == 1049 {
            if on {
                enter_alt(g)
            } else {
                exit_alt(g)
            }
        } else {
            g
        }
    }
}

/// A full reset (`ESC c`): blank primary screen, home cursor, baseline
/// rendition, full scroll region, no saved cursor, wrapping on, cursor
/// visible. The scrollback and the title survive.
pub open spec fn spec_reset(g: GridModel) -> GridModel {
    GridModel {
        cells: Seq::new(g.cells.len(), |r: int| blank_row(g.cols, Attributes::spec_baseline())),
        cursor_row: 0,
        cursor_col: 0,
        cursor_visible: true,
        wrap_mode: true,
        wrap_pending: false,
        saved: None,
        scroll_top: 0,
        scroll_bottom: g.rows - 1,
        attrs: Attributes::spec_baseline(),
        alt: None,
        ..g
    }
}

/// What applying one action to the grid means. Total: any action on any
/// well-formed grid yields a well-formed grid.
pub open spec fn spec_apply(g: GridModel, a: ActionView) -> GridModel {
    let g0 = GridModel { wrap_pending: false, ..g };
    match a {
        ActionView::Print(c) => spec_print(g, c),
        ActionView::LineFeed => advance_line(g0),
        ActionView::CarriageReturn => GridModel { cursor_col: 0, ..g0 },
        ActionView::Tab => GridModel {
            cursor_col: clamp((g.cursor_col / 8 + 1) * 8, 0, g.cols - 1),
            ..g0
        },
        ActionView::Backspace => GridModel { cursor_col: clamp(g.cursor_col - 1, 0, g.cols - 1), ..g0 },
        ActionView::Bell => g0,
        ActionView::CursorUp(n) => GridModel {
            cursor_row: clamp(g.cursor_row - move_count(n), 0, g.rows - 1),
            ..g0
        },
        ActionView::CursorDown(n) => GridModel {
            cursor_row: clamp(g.cursor_row + move_count(n), 0, g.rows - 1),
            ..g0
        },
        ActionView::CursorForward(n) => GridModel {
            cursor_col: clamp(g.cursor_col + move_count(n), 0, g.cols - 1),
            ..g0
        },
        ActionView::CursorBack(n) => GridModel {
            cursor_col: clamp(g.cursor_col - move_count(n), 0, g.cols - 1),
            ..g0
        },
        ActionView::CursorPosition(r, c) => GridModel {
            cursor_row: clamp(n_or(r, 1) - 1, 0, g.rows - 1),
            cursor_col: clamp(n_or(c, 1) - 1, 0, g.cols - 1),
            ..g0
        },
        ActionView::EraseInLine(m) => erase_line(g0, n_or(m, 0)),
        ActionView::EraseInDisplay(m) => erase_display(g0, n_or(m, 0)),
        ActionView::SetGraphicRendition(ps) => GridModel {
            attrs: if ps.len() == 0 {
                Attributes::spec_baseline()
            } else {
                spec_sgr(g.attrs, ps)
            },
            ..g0
        },
        ActionView::ScrollUp(n) => scroll_up_n(g0, move_count(n)),
        ActionView::ScrollDown(n) => scroll_down_n(g0, move_count(n)),
        ActionView::SetScrollRegion(t, b) => set_region(g0, t, b),
        ActionView::SaveCursor => GridModel {
            saved: Some(
                SavedCursorModel { row: g.cursor_row, col: g.cursor_col, attrs: g.attrs },
            ),
            ..g0
        },
        ActionView::RestoreCursor => restore_cursor(g0),
        ActionView::SetMode(p, c) => set_mode(g0, p, c, true),
        ActionView::ResetMode(p, c) => set_mode(g0, p, c, false),
        ActionView::WindowTitle(t) => GridModel { title: t, ..g0 },
        ActionView::Reset => spec_reset(g0),
    }
}

/// A sequence of actions applied in order.
pub open spec fn spec_apply_all(g: GridModel, acts: Seq<ActionView>) -> GridModel
    decreases acts.len(),
{
    if acts.len() == 0 {
        g
    } else {
        spec_apply_all(spec_apply(g, acts[0]), acts.drop_first())
    }
}

/// Applying one more action extends the fold by one step.
pub proof fn lemma_apply_all_snoc(g: GridModel, acts: Seq<ActionView>, i: int)
    requires
        0 <= i < acts.len(),
    ensures
        spec_apply_all(g, acts.take(i + 1)) == spec_apply(
            spec_apply_all(g, acts.take(i)),
            acts[i],
        ),
    decreases i,
{
    if i == 0 {
        let t1 = acts.take(1);
        assert(t1.len() == 1);
        assert(t1[0] == acts[0]);
        assert(t1.drop_first() =~= Seq::<ActionView>::empty());
        assert(spec_apply_all(g, t1) == spec_apply_all(spec_apply(g, acts[0]), t1.drop_first()));
        assert(acts.take(0).len() == 0);
    } else {
        let g1 = spec_apply(g, acts[0]);
        let rest = acts.drop_first();
        assert(acts.take(i + 1).len() == i + 1);
        assert(acts.take(i + 1)[0] == acts[0]);
        assert(acts.take(i + 1).drop_first() =~= rest.take(i));
        assert(spec_apply_all(g, acts.take(i + 1)) == spec_apply_all(g1, rest.take(i)));
        assert(acts.take(i).len() == i);
        assert(acts.take(i)[0] == acts[0]);
        assert(acts.take(i).drop_first() =~= rest.take(i - 1));
        assert(spec_apply_all(g, acts.take(i)) == spec_apply_all(g1, rest.take(i - 1)));
        lemma_apply_all_snoc(g1, rest, i - 1);
        assert(rest[i - 1] == acts[i]);
    }
}

/// Resetting the rendition: whatever style and color codes were applied
/// before, `SetGraphicRendition([0])` returns the grid's current
/// rendition to the baseline default.
pub proof fn lemma_sgr_reset(g: GridModel)
    ensures
        spec_apply(g, ActionView::SetGraphicRendition(seq![Some(0u16)])).attrs
            == Attributes::spec_baseline(),
        spec_apply(g, ActionView::SetGraphicRendition(seq![Some(0u16)])).cells == g.cells,
{
    let ps: Seq<Option<u16>> = seq![Some(0u16)];
    assert(ps.len() == 1);
    assert(ps[0] == Some(0u16));
    assert(sgr_one(g.attrs, 0) == Attributes::spec_baseline());
    assert(ps.skip(1) =~= Seq::<Option<u16>>::empty());
    assert(spec_sgr(g.attrs, ps) == spec_sgr(Attributes::spec_baseline(), ps.skip(1)));
}

proof fn lemma_sb_push_bound(sb: Seq<Seq<Cell>>, cap: int, row: Seq<Cell>)
    requires
        sb.len() <= cap,
    ensures
        sb_push(sb, cap, row).len() <= cap,
{
}

proof fn lemma_scroll_up_n_bounds(g: GridModel, n: int)
    requires
        g.scrollback.len() <= g.scrollback_cap,
    ensures
        scroll_up_n(g, n).scrollback.len() <= g.scrollback_cap,
        scroll_up_n(g, n).scrollback_cap == g.scrollback_cap,
        scroll_up_n(g, n).rows == g.rows,
        scroll_up_n(g, n).cols == g.cols,
    decreases n,
{
    if n > 0 {
        lemma_sb_push_bound(g.scrollback, g.scrollback_cap, g.cells[g.scroll_top]);
        lemma_scroll_up_n_bounds(scroll_up_one(g), n - 1);
    }
}

proof fn lemma_scroll_down_n_bounds(g: GridModel, n: int)
    requires
        g.scrollback.len() <= g.scrollback_cap,
    ensures
        scroll_down_n(g, n).scrollback.len() <= g.scrollback_cap,
        scroll_down_n(g, n).scrollback_cap == g.scrollback_cap,
        scroll_down_n(g, n).rows == g.rows,
        scroll_down_n(g, n).cols == g.cols,
    decreases n,
{
    if n > 0 {
        lemma_scroll_down_n_bounds(scroll_down_one(g), n - 1);
    }
}

/// One action never retains more scrollback than the capacity, and
/// never changes the dimensions or the capacity; only an explicit
/// resize can do that.
pub proof fn lemma_apply_keeps_bounds(g: GridModel, a: ActionView)
    requires
        g.scrollback.len() <= g.scrollback_cap,
    ensures
        spec_apply(g, a).scrollback.len() <= g.scrollback_cap,
        spec_apply(g, a).scrollback_cap == g.scrollback_cap,
        spec_apply(g, a).rows == g.rows,
        spec_apply(g, a).cols == g.cols,
{
    let g0 = GridModel { wrap_pending: false, ..g };
    match a {
        ActionView::Print(c) => {
            lemma_sb_push_bound(g.scrollback, g.scrollback_cap, g.cells[g.scroll_top]);
            let g1 = if g.wrap_pending && g.wrap_mode {
                advance_line(GridModel { cursor_col: 0, wrap_pending: false, ..g })
            } else {
                GridModel { wrap_pending: false, ..g }
            };
            lemma_sb_push_bound(g1.scrollback, g1.scrollback_cap, g1.cells[g1.scroll_top]);
        },
        ActionView::LineFeed => {
            lemma_sb_push_bound(g.scrollback, g.scrollback_cap, g.cells[g.scroll_top]);
        },
        ActionView::ScrollUp(n) => {
            lemma_scroll_up_n_bounds(g0, move_count(n));
        },
        ActionView::ScrollDown(n) => {
            lemma_scroll_down_n_bounds(g0, move_count(n));
        },
        _ => {},
    }
}

proof fn lemma_apply_all_bounds(g: GridModel, acts: Seq<ActionView>)
    requires
        g.scrollback.len() <= g.scrollback_cap,
    ensures
        spec_apply_all(g, acts).scrollback.len() <= g.scrollback_cap,
        spec_apply_all(g, acts).scrollback_cap == g.scrollback_cap,
        spec_apply_all(g, acts).rows == g.rows,
        spec_apply_all(g, acts).cols == g.cols,
    decreases acts.len(),
{
    if acts.len() > 0 {
        lemma_apply_keeps_bounds(g, acts[0]);
        lemma_apply_all_bounds(spec_apply(g, acts[0]), acts.drop_first());
    }
}

/// The scrollback bound: however many line feeds (or any other
/// actions) the grid consumes, the total number of retained lines —
/// scrollback plus the visible rows — never exceeds the configured
/// capacity plus the row count.
pub proof fn lemma_retained_lines_bound(g: GridModel, acts: Seq<ActionView>)
    requires
        g.scrollback.len() <= g.scrollback_cap,
    ensures
        spec_apply_all(g, acts).scrollback.len() + spec_apply_all(g, acts).rows
            <= g.scrollback_cap + g.rows,
{
    lemma_apply_all_bounds(g, acts);
}

/// Erase semantics: clearing the entire display leaves every visible
/// cell blank under the current rendition, and does not move the
/// cursor.
pub proof fn lemma_erase_display_clears(g: GridModel)
    requires
        wf(g),
    ensures
        spec_apply(g, ActionView::EraseInDisplay(Some(2u16))).cursor_row == g.cursor_row,
        spec_apply(g, ActionView::EraseInDisplay(Some(2u16))).cursor_col == g.cursor_col,
        spec_apply(g, ActionView::EraseInDisplay(Some(2u16))).cells.len() == g.rows,
        forall|r: int, c: int|
            0 <= r < g.rows && 0 <= c < g.cols ==> spec_apply(
                g,
                ActionView::EraseInDisplay(Some(2u16)),
            ).cells[r][c] == Cell::spec_blank(g.attrs),
{
    let g2 = spec_apply(g, ActionView::EraseInDisplay(Some(2u16)));
    assert forall|r: int, c: int| 0 <= r < g.rows && 0 <= c < g.cols implies g2.cells[r][c]
        == Cell::spec_blank(g.attrs) by {
        assert(g2.cells[r] == blank_row(g.cols, g.attrs));
    }
}


} // verus!
