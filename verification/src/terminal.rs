//! The terminal handle: parser and grid joined behind the narrow
//! interface the surrounding application uses.
//!
//! [`TerminalHandle::process`] consumes raw bytes from the
//! pseudo-terminal, [`TerminalHandle::resize`] adjusts the dimensions,
//! and the read-only accessors hand the rendering layer a snapshot of
//! the visible grid, the cursor and the scrollback. Its exact behavior
//! is [`spec_process`]: the parser's fold over the bytes, with every
//! completed action applied to the grid in input order.

use vstd::prelude::*;

use crate::color::Cell;
use crate::grid::Grid;
use crate::grid::ResizeError;
use crate::grid::init_grid;
use crate::grid_model::GridModel;
use crate::grid_model::lemma_apply_all_snoc;
use crate::grid_model::spec_apply_all;
use crate::parser::Parser;
use crate::parser::ParserModel;
use crate::parser::run_actions;
use crate::parser::run_state;
use crate::parser::views_of;
use crate::reflow::spec_resize;

verus! {

/// Lines of scrollback a terminal keeps unless configured otherwise.
pub const DEFAULT_SCROLLBACK: usize = 10000;

/// The mathematical state of a terminal: its parser and its grid.
#[verifier::ext_equal]
pub struct TerminalModel {
    pub parser: ParserModel,
    pub grid: GridModel,
}

/// What processing a chunk of PTY output means: the parser consumes
/// every byte in order, and each action it completes is applied to the
/// grid in that same order.
pub open spec fn spec_process(t: TerminalModel, bytes: Seq<u8>) -> TerminalModel {
    TerminalModel {
        parser: run_state(t.parser, bytes),
        grid: spec_apply_all(t.grid, run_actions(t.parser, bytes)),
    }
}


/// Plain text at the terminal level: from a parser standing between
/// sequences, processing the UTF-8 encoding of printable characters
/// applies exactly one `Print` per character to the grid, in input
/// order, and leaves the parser as it was.
pub proof fn lemma_process_plain_text(t: TerminalModel, chars: Seq<char>)
    requires
        crate::parser::ready(t.parser),
        forall|i: int|
            0 <= i < chars.len() ==> crate::parser::is_printable_char(#[trigger] chars[i]),
    ensures
        spec_process(t, vstd::utf8::encode_utf8(chars)).parser == t.parser,
        spec_process(t, vstd::utf8::encode_utf8(chars)).grid == spec_apply_all(
            t.grid,
            crate::parser::prints_of(chars),
        ),
{
    crate::parser::lemma_plain_text_prints(t.parser, chars);
}

/// The scrollback bound at the terminal level: whatever bytes arrive —
/// line feeds past the capacity included — the retained lines,
/// scrollback plus visible rows, never exceed the configured capacity
/// plus the row count.
pub proof fn lemma_process_retained_bound(t: TerminalModel, bytes: Seq<u8>)
    requires
        t.grid.scrollback.len() <= t.grid.scrollback_cap,
    ensures
        spec_process(t, bytes).grid.scrollback.len() + spec_process(t, bytes).grid.rows
            <= t.grid.scrollback_cap + t.grid.rows,
{
    crate::grid_model::lemma_retained_lines_bound(t.grid, run_actions(t.parser, bytes));
}

/// A terminal emulator instance: escape sequence parsing, the cell
/// grid, scrollback and resize behind one handle.
#[derive(Debug)]
pub struct TerminalHandle {
    parser: Parser,
    grid: Grid,
}

impl View for TerminalHandle {
    type V = TerminalModel;

    closed spec fn view(&self) -> TerminalModel {
        TerminalModel { parser: self.parser@, grid: self.grid@ }
    }
}

impl TerminalHandle {
    /// The handle's internal consistency; constructors establish it and
    /// every method keeps it.
    pub closed spec fn inv(&self) -> bool {
        self.grid.inv()
    }

    /// A terminal with the default scrollback capacity.
    pub fn new(cols: u16, rows: u16) -> (r: TerminalHandle)
        ensures
            r.inv(),
            r@.parser == ParserModel::init(),
            r@.grid == init_grid(
                if cols == 0 { 1int } else { cols as int },
                if rows == 0 { 1int } else { rows as int },
                DEFAULT_SCROLLBACK as int,
            ),
    {
        TerminalHandle::with_scrollback(cols, rows, DEFAULT_SCROLLBACK)
    }

    /// A terminal with the given scrollback capacity in lines. A zero
    /// dimension is raised to 1.
    pub fn with_scrollback(cols: u16, rows: u16, scrollback_lines: usize) -> (r: TerminalHandle)
        ensures
            r.inv(),
            r@.parser == ParserModel::init(),
            r@.grid == init_grid(
                if cols == 0 { 1int } else { cols as int },
                if rows == 0 { 1int } else { rows as int },
                scrollback_lines as int,
            ),
    {
        TerminalHandle { parser: Parser::new(), grid: Grid::new(cols, rows, scrollback_lines) }
    }

    /// Consumes raw bytes from the PTY: parses escape sequences and
    /// updates the grid. Parser state survives across calls, so chunks
    /// may split sequences anywhere.
    pub fn process(&mut self, data: &[u8])
        requires
            old(self).inv(),
        ensures
            final(self).inv(),
            final(self)@ == spec_process(old(self)@, data@),
    {
        let ghost p0 = self.parser@;
        let ghost g0 = self.grid@;
        let acts = self.parser.feed(data);
        let ghost avs = views_of(acts@);
        let mut i: usize = 0;
        proof {
            assert(avs.take(0) =~= Seq::<crate::action::ActionView>::empty());
        }
        while i < acts.len()
            invariant
                self.grid.inv(),
                i <= acts@.len(),
                avs == views_of(acts@),
                avs.len() == acts@.len(),
                forall|j: int| 0 <= j < acts@.len() ==> avs[j] == (#[trigger] acts@[j])@,
                self.grid@ == spec_apply_all(g0, avs.take(i as int)),
                self.parser@ == run_state(p0, data@),
            decreases acts@.len() - i,
        {
            self.grid.apply(&acts[i]);
            proof {
                lemma_apply_all_snoc(g0, avs, i as int);
            }
            i = i + 1;
        }
        proof {
            assert(avs.take(acts@.len() as int) =~= avs);
        }
    }

    /// Resizes the terminal grid; a zero dimension is rejected without
    /// any change. After a successful resize the application notifies
    /// the PTY session of the new dimensions.
    pub fn resize(&mut self, cols: u16, rows: u16) -> (res: Result<(), ResizeError>)
        requires
            old(self).inv(),
        ensures
            final(self).inv(),
            cols == 0 || rows == 0 ==> res is Err && final(self)@ == old(self)@,
            cols != 0 && rows != 0 ==> res is Ok && final(self)@ == (TerminalModel {
                grid: spec_resize(old(self)@.grid, cols as int, rows as int),
                ..old(self)@
            }),
    {
        self.grid.resize(cols, rows)
    }

    /// Dimensions as (columns, rows).
    pub fn size(&self) -> (r: (u16, u16))
        requires
            self.inv(),
        ensures
            r.0 as int == self@.grid.cols,
            r.1 as int == self@.grid.rows,
    {
        self.grid.size()
    }

    /// The configured scrollback capacity in lines.
    pub fn scrollback_lines(&self) -> (n: usize)
        ensures
            n as int == self@.grid.scrollback_cap,
    {
        self.grid.scrollback_capacity()
    }

    /// Read access to the visible rows, top to bottom.
    pub fn visible_lines(&self) -> (r: &Vec<Vec<Cell>>)
        ensures
            crate::grid::rows_view(r@) == self@.grid.cells,
    {
        self.grid.visible_lines()
    }

    /// Cursor position and visibility, as (row, column, visible).
    pub fn cursor_position(&self) -> (r: (usize, usize, bool))
        ensures
            r.0 as int == self@.grid.cursor_row,
            r.1 as int == self@.grid.cursor_col,
            r.2 == self@.grid.cursor_visible,
    {
        self.grid.cursor_position()
    }

    /// The number of scrollback rows currently retained.
    pub fn scrollback_line_count(&self) -> (n: usize)
        ensures
            n as int == self@.grid.scrollback.len(),
    {
        self.grid.scrollback_line_count()
    }

    /// Read access to one scrollback row; index 0 is the oldest.
    pub fn scrollback_line(&self, i: usize) -> (r: &Vec<Cell>)
        requires
            self.inv(),
            i < self@.grid.scrollback.len(),
        ensures
            r@ == self@.grid.scrollback[i as int],
    {
        self.grid.scrollback_line(i)
    }

    /// The window title bytes set by the last title sequence.
    pub fn title(&self) -> (r: &Vec<u8>)
        ensures
            r@ == self@.grid.title,
    {
        self.grid.title()
    }
}

impl Default for TerminalHandle {
    /// A standard 80×24 terminal.
    fn default() -> (r: TerminalHandle)
        ensures
            r.inv(),
            r@.parser == ParserModel::init(),
            r@.grid == init_grid(80, 24, DEFAULT_SCROLLBACK as int),
    {
        TerminalHandle::new(80, 24)
    }
}

} // verus!
