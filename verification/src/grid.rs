//! The terminal grid: the authoritative display state.
//!
//! [`Grid`] owns the visible cell matrix, the cursor, the scroll
//! region, the current rendition, the bounded scrollback ring and the
//! alternate screen buffer, and applies parser [`Action`]s to them.
//! Every mutation is pinned to the mathematical model in
//! [`crate::grid_model`]: applying an action computes exactly
//! [`spec_apply`] of the previous state.

use vstd::prelude::*;
use vstd::pervasive::VecAdditionalExecFns;

use crate::action::Action;
use crate::color::Attributes;
use crate::color::Cell;
use crate::color::is_wide;
use crate::color::ColorRef;
use crate::color::StyleFlags;
use crate::grid_model::AltModel;
use crate::grid_model::GridModel;
use crate::grid_model::SavedCursorModel;
use crate::grid_model::advance_line;
use crate::grid_model::blank_row;
use crate::grid_model::enter_alt;
use crate::grid_model::erase_display;
use crate::grid_model::erase_line;
use crate::grid_model::exit_alt;
use crate::grid_model::fill_range;
use crate::grid_model::move_count;
use crate::grid_model::restore_cursor;
use crate::grid_model::sb_push;
use crate::grid_model::set_mode;
use crate::grid_model::set_region;
use crate::grid_model::sgr_one;
use crate::grid_model::spec_apply;
use crate::grid_model::spec_print;
use crate::grid_model::spec_reset;
use crate::grid_model::spec_sgr;
use crate::grid_model::wide_write;
use crate::grid_model::scroll_down_n;
use crate::grid_model::scroll_down_one;
use crate::grid_model::scroll_up_n;
use crate::grid_model::scroll_up_one;
use crate::grid_model::wf;
use crate::grid_model::write_cell;
use crate::reflow::fit_screen;
use crate::reflow::keep_start;
use crate::reflow::resize_row;
use crate::reflow::sb_push_rows;
use crate::reflow::spec_resize;

verus! {

/// The views of a sequence of rows.
pub open spec fn rows_view(rows: Seq<Vec<Cell>>) -> Seq<Seq<Cell>> {
    Seq::new(rows.len(), |i: int| rows[i]@)
}

/// A row of `cols` blank cells.
fn make_blank_row(cols: usize, attrs: Attributes) -> (r: Vec<Cell>)
    ensures
        r@ == blank_row(cols as int, attrs),
{
    let mut r: Vec<Cell> = Vec::new();
    let mut i: usize = 0;
    while i < cols
        invariant
            i <= cols,
            r@ =~= blank_row(cols as int, attrs).take(i as int),
        decreases cols - i,
    {
        r.push(Cell::blank(attrs));
        i = i + 1;
    }
    proof {
        assert(r@ =~= blank_row(cols as int, attrs));
    }
    r
}

/// An owned copy of a byte vector.
fn copy_bytes(v: &Vec<u8>) -> (r: Vec<u8>)
    ensures
        r@ == v@,
{
    let mut r: Vec<u8> = Vec::new();
    let mut i: usize = 0;
    while i < v.len()
        invariant
            i <= v@.len(),
            r@ =~= v@.take(i as int),
        decreases v@.len() - i,
    {
        r.push(v[i]);
        i = i + 1;
    }
    proof {
        assert(r@ =~= v@);
    }
    r
}

/// The bounded scrollback: a fixed-capacity ring of historical rows.
/// Eviction replaces the oldest row in place, so heavy output never
/// reallocates per line.
#[derive(Debug)]
pub struct Scrollback {
    /// Stored rows; holds at most `cap` of them.
    buf: Vec<Vec<Cell>>,
    /// Index of the oldest row once the ring is full; 0 while filling.
    start: usize,
    /// Configured capacity in lines.
    cap: usize,
}

impl Scrollback {
    /// The retained rows, oldest first.
    pub closed spec fn view(&self) -> Seq<Seq<Cell>> {
        Seq::new(
            self.buf@.len(),
            |i: int|
                if self.start + i < self.buf@.len() {
                    self.buf@[self.start + i]@
                } else {
                    self.buf@[self.start + i - self.buf@.len()]@
                },
        )
    }

    /// The configured capacity.
    pub closed spec fn spec_cap(&self) -> int {
        self.cap as int
    }

    /// The ring's internal shape: within capacity, and `start` stays 0
    /// until the ring is full.
    pub closed spec fn wf(&self) -> bool {
        &&& self.buf@.len() <= self.cap
        &&& (self.buf@.len() < self.cap ==> self.start == 0)
        &&& (self.start == 0 || self.start < self.buf@.len())
    }

    /// An empty scrollback with the given capacity.
    pub fn new(cap: usize) -> (r: Scrollback)
        ensures
            r.wf(),
            r@ == Seq::<Seq<Cell>>::empty(),
            r.spec_cap() == cap as int,
    {
        let r = Scrollback { buf: Vec::new(), start: 0, cap };
        proof {
            assert(r@ =~= Seq::<Seq<Cell>>::empty());
        }
        r
    }

    /// The number of retained rows.
    pub fn len(&self) -> (n: usize)
        ensures
            n as int == self@.len(),
    {
        self.buf.len()
    }

    /// Read access to one retained row; index 0 is the oldest.
    pub fn line(&self, i: usize) -> (r: &Vec<Cell>)
        requires
            self.wf(),
            i < self@.len(),
        ensures
            r@ == self@[i as int],
    {
        if i < self.buf.len() - self.start {
            &self.buf[self.start + i]
        } else {
            &self.buf[i - (self.buf.len() - self.start)]
        }
    }

    /// Appends a row, evicting the oldest once the ring is full.
    pub fn push(&mut self, row: Vec<Cell>)
        requires
            old(self).wf(),
        ensures
            final(self).wf(),
            final(self)@ == sb_push(old(self)@, old(self).spec_cap(), row@),
            final(self).spec_cap() == old(self).spec_cap(),
    {
        if self.cap == 0 {
            proof {
                assert(final(self)@ =~~= sb_push(old(self)@, old(self).spec_cap(), row@));
            }
            return ;
        }
        if self.buf.len() < self.cap {
            self.buf.push(row);
            proof {
                assert(final(self)@ =~~= old(self)@.push(row@));
            }
        } else {
            self.buf.set(self.start, row);
            let next = self.start + 1;
            self.start = if next == self.buf.len() {
                0
            } else {
                next
            };
            proof {
                assert(final(self)@ =~~= old(self)@.subrange(1, old(self)@.len() as int).push(
                    row@,
                ));
            }
        }
    }

    /// Discards all retained rows; the capacity stays.
    pub fn clear(&mut self)
        ensures
            final(self).wf(),
            final(self)@ == Seq::<Seq<Cell>>::empty(),
            final(self).spec_cap() == old(self).spec_cap(),
    {
        self.buf.clear();
        self.start = 0;
        proof {
            assert(final(self)@ =~= Seq::<Seq<Cell>>::empty());
        }
    }
}

/// The single saved-cursor slot.
#[derive(Clone, Copy, Debug)]
struct SavedCursor {
    row: usize,
    col: usize,
    attrs: Attributes,
}

/// The primary screen parked while the alternate buffer is active.
#[derive(Debug)]
struct AltScreen {
    cells: Vec<Vec<Cell>>,
    cursor_row: usize,
    cursor_col: usize,
}

/// The terminal grid. See the module documentation.
#[derive(Debug)]
pub struct Grid {
    cols: usize,
    rows: usize,
    cells: Vec<Vec<Cell>>,
    cursor_row: usize,
    cursor_col: usize,
    cursor_visible: bool,
    wrap_mode: bool,
    wrap_pending: bool,
    saved: Option<SavedCursor>,
    scroll_top: usize,
    scroll_bottom: usize,
    attrs: Attributes,
    scrollback: Scrollback,
    alt: Option<AltScreen>,
    title: Vec<u8>,
}

impl View for Grid {
    type V = GridModel;

    closed spec fn view(&self) -> GridModel {
        GridModel {
            cols: self.cols as int,
            rows: self.rows as int,
            cells: rows_view(self.cells@),
            cursor_row: self.cursor_row as int,
            cursor_col: self.cursor_col as int,
            cursor_visible: self.cursor_visible,
            wrap_mode: self.wrap_mode,
            wrap_pending: self.wrap_pending,
            saved: match self.saved {
                Some(s) => Some(
                    SavedCursorModel { row: s.row as int, col: s.col as int, attrs: s.attrs },
                ),
                None => None,
            },
            scroll_top: self.scroll_top as int,
            scroll_bottom: self.scroll_bottom as int,
            attrs: self.attrs,
            scrollback: self.scrollback@,
            scrollback_cap: self.scrollback.spec_cap(),
            alt: match self.alt {
                Some(ref a) => Some(
                    AltModel {
                        cells: rows_view(a.cells@),
                        cursor_row: a.cursor_row as int,
                        cursor_col: a.cursor_col as int,
                    },
                ),
                None => None,
            },
            title: self.title@,
        }
    }
}

/// The state of a freshly created grid: all cells blank under the
/// baseline rendition, cursor home, full-screen scroll region, wrapping
/// on, cursor visible, empty scrollback of the given capacity.
pub open spec fn init_grid(cols: int, rows: int, cap: int) -> GridModel {
    GridModel {
        cols,
        rows,
        cells: Seq::new(rows as nat, |r: int| blank_row(cols, Attributes::spec_baseline())),
        cursor_row: 0,
        cursor_col: 0,
        cursor_visible: true,
        wrap_mode: true,
        wrap_pending: false,
        saved: None,
        scroll_top: 0,
        scroll_bottom: rows - 1,
        attrs: Attributes::spec_baseline(),
        scrollback: Seq::empty(),
        scrollback_cap: cap,
        alt: None,
        title: Seq::empty(),
    }
}

impl Grid {
    /// A grid of the given dimensions. A zero dimension is raised to 1:
    /// a grid is never degenerate.
    pub fn new(cols: u16, rows: u16, scrollback_cap: usize) -> (r: Grid)
        ensures
            r@ == init_grid(
                if cols == 0 { 1int } else { cols as int },
                if rows == 0 { 1int } else { rows as int },
                scrollback_cap as int,
            ),
            r.inv(),
    {
        let c: usize = if cols == 0 {
            1
        } else {
            cols as usize
        };
        let rws: usize = if rows == 0 {
            1
        } else {
            rows as usize
        };
        let attrs = Attributes::baseline();
        let mut cells: Vec<Vec<Cell>> = Vec::new();
        let mut i: usize = 0;
        while i < rws
            invariant
                i <= rws,
                cells@.len() == i,
                forall|r: int| 0 <= r < i ==> (#[trigger] cells@[r])@ == blank_row(c as int, attrs),
            decreases rws - i,
        {
            cells.push(make_blank_row(c, attrs));
            i = i + 1;
        }
        let g = Grid {
            cols: c,
            rows: rws,
            cells,
            cursor_row: 0,
            cursor_col: 0,
            cursor_visible: true,
            wrap_mode: true,
            wrap_pending: false,
            saved: None,
            scroll_top: 0,
            scroll_bottom: rws - 1,
            attrs,
            scrollback: Scrollback::new(scrollback_cap),
            alt: None,
            title: Vec::new(),
        };
        proof {
            assert(g@ =~~= init_grid(c as int, rws as int, scrollback_cap as int));
        }
        g
    }

    /// The grid's internal consistency, as the model's well-formedness
    /// plus the ring's own shape.
    pub closed spec fn inv(&self) -> bool {
        &&& wf(self@)
        &&& self.scrollback.wf()
    }

    /// Everything the contracts say about a grid is in terms of its
    /// model, so the invariant is part of each method's contract.
    pub proof fn lemma_inv_wf(&self)
        ensures
            self.inv() ==> wf(self@),
    {
    }

    /// Dimensions as (columns, rows).
    pub fn size(&self) -> (r: (u16, u16))
        requires
            self.inv(),
        ensures
            r.0 as int == self@.cols,
            r.1 as int == self@.rows,
    {
        (self.cols as u16, self.rows as u16)
    }

    /// Read access to the visible rows, top to bottom.
    pub fn visible_lines(&self) -> (r: &Vec<Vec<Cell>>)
        ensures
            rows_view(r@) == self@.cells,
    {
        &self.cells
    }

    /// Cursor position and visibility, as (row, column, visible).
    pub fn cursor_position(&self) -> (r: (usize, usize, bool))
        ensures
            r.0 as int == self@.cursor_row,
            r.1 as int == self@.cursor_col,
            r.2 == self@.cursor_visible,
    {
        (self.cursor_row, self.cursor_col, self.cursor_visible)
    }

    /// The number of scrollback rows currently retained.
    pub fn scrollback_line_count(&self) -> (n: usize)
        ensures
            n as int == self@.scrollback.len(),
    {
        self.scrollback.len()
    }

    /// Read access to one scrollback row; index 0 is the oldest.
    pub fn scrollback_line(&self, i: usize) -> (r: &Vec<Cell>)
        requires
            self.inv(),
            i < self@.scrollback.len(),
        ensures
            r@ == self@.scrollback[i as int],
    {
        self.scrollback.line(i)
    }

    /// The scrollback capacity the grid was configured with.
    pub fn scrollback_capacity(&self) -> (n: usize)
        ensures
            n as int == self@.scrollback_cap,
    {
        self.scrollback.cap
    }

    /// The window title bytes set by the last title sequence.
    pub fn title(&self) -> (r: &Vec<u8>)
        ensures
            r@ == self@.title,
    {
        &self.title
    }

    /// Replaces one cell.
    fn set_cell(&mut self, r: usize, c: usize, cell: Cell)
        requires
            old(self).inv(),
            r < old(self)@.rows,
            c < old(self)@.cols,
        ensures
            final(self).inv(),
            final(self)@ == (GridModel {
                cells: write_cell(old(self)@.cells, r as int, c as int, cell),
                ..old(self)@
            }),
    {
        let mut row: Vec<Cell> = Vec::new();
        self.cells.set_and_swap(r, &mut row);
        row.set(c, cell);
        self.cells.set_and_swap(r, &mut row);
        proof {
            assert(final(self)@ =~~= (GridModel {
                cells: write_cell(old(self)@.cells, r as int, c as int, cell),
                ..old(self)@
            }));
        }
    }

    /// Scrolls the region up one line; the leaving row goes to the
    /// scrollback when the region starts at the top of the primary
    /// screen.
    fn scroll_up_once(&mut self)
        requires
            old(self).inv(),
        ensures
            final(self).inv(),
            final(self)@ == scroll_up_one(old(self)@),
    {
        let leaving = self.cells.remove(self.scroll_top);
        if self.scroll_top == 0 && self.alt.is_none() {
            self.scrollback.push(leaving);
        }
        let blank = make_blank_row(self.cols, self.attrs);
        self.cells.insert(self.scroll_bottom, blank);
        proof {
            assert(final(self)@ =~~= scroll_up_one(old(self)@));
        }
    }

    /// Scrolls the region down one line.
    fn scroll_down_once(&mut self)
        requires
            old(self).inv(),
        ensures
            final(self).inv(),
            final(self)@ == scroll_down_one(old(self)@),
    {
        let removed = self.cells.remove(self.scroll_bottom);
        let blank = make_blank_row(self.cols, self.attrs);
        self.cells.insert(self.scroll_top, blank);
        proof {
            assert(final(self)@ =~~= scroll_down_one(old(self)@));
        }
    }

    /// Scrolls the region up `n` lines.
    fn scroll_up_count(&mut self, n: u16)
        requires
            old(self).inv(),
        ensures
            final(self).inv(),
            final(self)@ == scroll_up_n(old(self)@, n as int),
    {
        let mut i: u16 = 0;
        while i < n
            invariant
                self.inv(),
                i <= n,
                scroll_up_n(old(self)@, n as int) == scroll_up_n(self@, (n - i) as int),
            decreases n - i,
        {
            self.scroll_up_once();
            i = i + 1;
        }
    }

    /// Scrolls the region down `n` lines.
    fn scroll_down_count(&mut self, n: u16)
        requires
            old(self).inv(),
        ensures
            final(self).inv(),
            final(self)@ == scroll_down_n(old(self)@, n as int),
    {
        let mut i: u16 = 0;
        while i < n
            invariant
                self.inv(),
                i <= n,
                scroll_down_n(old(self)@, n as int) == scroll_down_n(self@, (n - i) as int),
            decreases n - i,
        {
            self.scroll_down_once();
            i = i + 1;
        }
    }

    /// Moves the cursor down one line, scrolling at the region bottom.
    fn advance_line_exec(&mut self)
        requires
            old(self).inv(),
        ensures
            final(self).inv(),
            final(self)@ == advance_line(old(self)@),
    {
        if self.cursor_row == self.scroll_bottom {
            self.scroll_up_once();
        } else if self.cursor_row + 1 < self.rows {
            self.cursor_row = self.cursor_row + 1;
        }
    }
}


/// An owned copy of one row.
fn copy_row(v: &Vec<Cell>) -> (r: Vec<Cell>)
    ensures
        r@ == v@,
{
    let mut r: Vec<Cell> = Vec::new();
    let mut i: usize = 0;
    while i < v.len()
        invariant
            i <= v@.len(),
            r@ =~= v@.take(i as int),
        decreases v@.len() - i,
    {
        r.push(v[i]);
        i = i + 1;
    }
    proof {
        assert(r@ =~= v@);
    }
    r
}

/// A copy of a row with `[start, end)` replaced by one cell value.
fn build_filled_row(src: &Vec<Cell>, start: usize, end: usize, cell: Cell) -> (r: Vec<Cell>)
    ensures
        r@ == fill_range(src@, start as int, end as int, cell),
{
    let mut r: Vec<Cell> = Vec::new();
    let mut i: usize = 0;
    while i < src.len()
        invariant
            i <= src@.len(),
            r@ =~= fill_range(src@, start as int, end as int, cell).take(i as int),
        decreases src@.len() - i,
    {
        if start <= i && i < end {
            r.push(cell);
        } else {
            r.push(src[i]);
        }
        proof {
            assert(r@ =~= fill_range(src@, start as int, end as int, cell).take(i + 1));
        }
        i = i + 1;
    }
    proof {
        assert(r@ =~= fill_range(src@, start as int, end as int, cell));
    }
    r
}

/// A row segment replaced by one cell value: `[start, end)`.
fn fill_row_range(row: &mut Vec<Cell>, start: usize, end: usize, cell: Cell)
    requires
        start <= end,
        end <= old(row)@.len(),
    ensures
        final(row)@ == fill_range(old(row)@, start as int, end as int, cell),
{
    let mut i: usize = start;
    while i < end
        invariant
            start <= i,
            i <= end <= row@.len(),
            row@.len() == old(row)@.len(),
            forall|j: int|
                0 <= j < row@.len() && !(start <= j < i) ==> row@[j] == old(row)@[j],
            forall|j: int| start <= j < i ==> row@[j] == cell,
        decreases end - i,
    {
        row.set(i, cell);
        i = i + 1;
    }
    proof {
        assert(final(row)@ =~= fill_range(old(row)@, start as int, end as int, cell));
    }
}

impl Grid {
    /// The ring invariant alone, for intermediate states.
    pub closed spec fn scrollback_wf(&self) -> bool {
        self.scrollback.wf()
    }

    /// Erase in line; see [`erase_line`].
    fn erase_line_exec(&mut self, mode: u16)
        requires
            old(self).inv(),
        ensures
            final(self).inv(),
            final(self)@ == erase_line(old(self)@, mode as int),
    {
        let blank = Cell::blank(self.attrs);
        if mode == 0 {
            let mut row: Vec<Cell> = Vec::new();
            self.cells.set_and_swap(self.cursor_row, &mut row);
            fill_row_range(&mut row, self.cursor_col, self.cols, blank);
            self.cells.set_and_swap(self.cursor_row, &mut row);
            proof {
                assert(final(self)@ =~~= erase_line(old(self)@, mode as int));
            }
        } else if mode == 1 {
            let mut row: Vec<Cell> = Vec::new();
            self.cells.set_and_swap(self.cursor_row, &mut row);
            fill_row_range(&mut row, 0, self.cursor_col + 1, blank);
            self.cells.set_and_swap(self.cursor_row, &mut row);
            proof {
                assert(final(self)@ =~~= erase_line(old(self)@, mode as int));
            }
        } else if mode == 2 {
            let b = make_blank_row(self.cols, self.attrs);
            self.cells.set(self.cursor_row, b);
            proof {
                assert(final(self)@ =~~= erase_line(old(self)@, mode as int));
            }
        }
    }

    /// Erase in display; see [`erase_display`].
    fn erase_display_exec(&mut self, mode: u16)
        requires
            old(self).inv(),
        ensures
            final(self).inv(),
            final(self)@ == erase_display(old(self)@, mode as int),
    {
        let ghost g0 = self@;
        let ghost target = erase_display(self@, mode as int);
        if mode == 0 || mode == 1 || mode == 2 {
            let blank = Cell::blank(self.attrs);
            let mut newcells: Vec<Vec<Cell>> = Vec::new();
            let mut r: usize = 0;
            while r < self.rows
                invariant
                    self@ == g0,
                    self.scrollback_wf(),
                    wf(g0),
                    target == erase_display(g0, mode as int),
                    mode == 0 || mode == 1 || mode == 2,
                    blank == Cell::spec_blank(g0.attrs),
                    r <= g0.rows,
                    newcells@.len() == r,
                    forall|j: int|
                        0 <= j < r ==> (#[trigger] newcells@[j])@ == target.cells[j],
                decreases g0.rows - r,
            {
                let row = if mode == 2 {
                    make_blank_row(self.cols, self.attrs)
                } else if mode == 0 {
                    if r > self.cursor_row {
                        make_blank_row(self.cols, self.attrs)
                    } else if r == self.cursor_row {
                        build_filled_row(&self.cells[r], self.cursor_col, self.cols, blank)
                    } else {
                        copy_row(&self.cells[r])
                    }
                } else {
                    if r < self.cursor_row {
                        make_blank_row(self.cols, self.attrs)
                    } else if r == self.cursor_row {
                        build_filled_row(&self.cells[r], 0, self.cursor_col + 1, blank)
                    } else {
                        copy_row(&self.cells[r])
                    }
                };
                newcells.push(row);
                r = r + 1;
            }
            self.cells = newcells;
            proof {
                assert(final(self)@ =~~= target);
            }
        } else if mode == 3 {
            self.scrollback.clear();
            proof {
                assert(final(self)@ =~~= target);
            }
        }
    }

    /// One printed character; see [`spec_print`].
    #[verifier::rlimit(100)]
    fn print_char(&mut self, c: char)
        requires
            old(self).inv(),
        ensures
            final(self).inv(),
            final(self)@ == spec_print(old(self)@, c),
    {
        if self.wrap_pending && self.wrap_mode {
            self.cursor_col = 0;
            self.wrap_pending = false;
            self.advance_line_exec();
        } else {
            self.wrap_pending = false;
        }
        if !is_wide(c) {
            let cell = Cell::glyph(c, self.attrs);
            self.set_cell(self.cursor_row, self.cursor_col, cell);
            if self.cursor_col + 1 < self.cols {
                self.cursor_col = self.cursor_col + 1;
            } else {
                self.wrap_pending = true;
            }
        } else {
            if self.cursor_col + 1 < self.cols {
                self.wide_write_exec(c);
            } else if self.wrap_mode && self.cols >= 2 {
                self.cursor_col = 0;
                self.advance_line_exec();
                self.wide_write_exec(c);
            }
        }
        proof {
            assert(final(self)@ =~~= spec_print(old(self)@, c));
        }
    }

    /// A double-width glyph and its continuation marker; see
    /// [`wide_write`].
    fn wide_write_exec(&mut self, c: char)
        requires
            old(self).inv(),
            old(self)@.cursor_col + 1 < old(self)@.cols,
        ensures
            final(self).inv(),
            final(self)@ == wide_write(old(self)@, c),
    {
        let head = Cell::glyph(c, self.attrs);
        let tail = Cell::wide_tail(self.attrs);
        self.set_cell(self.cursor_row, self.cursor_col, head);
        self.set_cell(self.cursor_row, self.cursor_col + 1, tail);
        if self.cursor_col + 2 < self.cols {
            self.cursor_col = self.cursor_col + 2;
        } else {
            self.cursor_col = self.cols - 1;
            self.wrap_pending = true;
        }
        proof {
            assert(final(self)@ =~~= wide_write(old(self)@, c));
        }
    }

    /// The current rendition updated by an SGR parameter list.
    fn apply_sgr(&mut self, ps: &Vec<Option<u16>>)
        requires
            old(self).inv(),
        ensures
            final(self).inv(),
            final(self)@ == (GridModel {
                attrs: if ps@.len() == 0 {
                    Attributes::spec_baseline()
                } else {
                    spec_sgr(old(self)@.attrs, ps@)
                },
                ..old(self)@
            }),
    {
        if ps.len() == 0 {
            self.attrs = Attributes::baseline();
        } else {
            self.attrs = sgr_exec(self.attrs, ps);
        }
    }

    /// The scroll region set from a CSI `r` sequence; see
    /// [`set_region`].
    fn set_region_exec(&mut self, t: Option<u16>, b: Option<u16>)
        requires
            old(self).inv(),
        ensures
            final(self).inv(),
            final(self)@ == set_region(old(self)@, t, b),
    {
        let t1: usize = match t {
            Some(v) => v as usize,
            None => 1,
        };
        let b1: usize = match b {
            Some(v) => v as usize,
            None => self.rows,
        };
        if 1 <= t1 && t1 < b1 && b1 <= self.rows {
            self.scroll_top = t1 - 1;
            self.scroll_bottom = b1 - 1;
            self.cursor_row = 0;
            self.cursor_col = 0;
        }
    }

    /// The cursor and rendition saved into the single slot.
    fn save_cursor_exec(&mut self)
        requires
            old(self).inv(),
        ensures
            final(self).inv(),
            final(self)@ == (GridModel {
                saved: Some(
                    SavedCursorModel {
                        row: old(self)@.cursor_row,
                        col: old(self)@.cursor_col,
                        attrs: old(self)@.attrs,
                    },
                ),
                ..old(self)@
            }),
    {
        self.saved = Some(
            SavedCursor { row: self.cursor_row, col: self.cursor_col, attrs: self.attrs },
        );
    }

    /// The saved cursor restored; see [`restore_cursor`].
    fn restore_cursor_exec(&mut self)
        requires
            old(self).inv(),
        ensures
            final(self).inv(),
            final(self)@ == restore_cursor(old(self)@),
    {
        match self.saved {
            Some(s) => {
                self.cursor_row = if s.row > self.rows - 1 {
                    self.rows - 1
                } else {
                    s.row
                };
                self.cursor_col = if s.col > self.cols - 1 {
                    self.cols - 1
                } else {
                    s.col
                };
                self.attrs = s.attrs;
            },
            None => {},
        }
    }

    /// The alternate screen buffer entered; see [`enter_alt`].
    fn enter_alt_exec(&mut self)
        requires
            old(self).inv(),
        ensures
            final(self).inv(),
            final(self)@ == enter_alt(old(self)@),
    {
        if self.alt.is_some() {
            return ;
        }
        let mut screen: Vec<Vec<Cell>> = Vec::new();
        let mut i: usize = 0;
        while i < self.rows
            invariant
                self@ == old(self)@,
                wf(self@),
                i <= self@.rows,
                screen@.len() == i,
                forall|r: int|
                    0 <= r < i ==> (#[trigger] screen@[r])@ == blank_row(self@.cols, self@.attrs),
            decreases self@.rows - i,
        {
            screen.push(make_blank_row(self.cols, self.attrs));
            i = i + 1;
        }
        core::mem::swap(&mut screen, &mut self.cells);
        self.alt = Some(
            AltScreen { cells: screen, cursor_row: self.cursor_row, cursor_col: self.cursor_col },
        );
        self.cursor_row = 0;
        self.cursor_col = 0;
        proof {
            assert(final(self)@ =~~= enter_alt(old(self)@));
        }
    }

    /// The alternate screen buffer left; see [`exit_alt`].
    fn exit_alt_exec(&mut self)
        requires
            old(self).inv(),
        ensures
            final(self).inv(),
            final(self)@ == exit_alt(old(self)@),
    {
        let mut taken: Option<AltScreen> = None;
        core::mem::swap(&mut taken, &mut self.alt);
        match taken {
            Some(a) => {
                self.cells = a.cells;
                self.cursor_row = a.cursor_row;
                self.cursor_col = a.cursor_col;
                proof {
                    assert(final(self)@ =~~= exit_alt(old(self)@));
                }
            },
            None => {},
        }
    }

    /// A mode set or reset; see [`set_mode`].
    fn mode_exec(&mut self, privat: bool, p: Option<u16>, on: bool)
        requires
            old(self).inv(),
        ensures
            final(self).inv(),
            final(self)@ == set_mode(old(self)@, privat, p, on),
    {
        if !privat {
            return ;
        }
        let m: u16 = match p {
            Some(v) => v,
            None => 0,
        };
        if m == 7 {
            self.wrap_mode = on;
        } else if m == 25 {
            self.cursor_visible = on;
        } else if m == 47 || m == 1047 || m == 1049 {
            if on {
                self.enter_alt_exec();
            } else {
                self.exit_alt_exec();
            }
        }
    }

    /// A full reset; see [`spec_reset`].
    fn reset_exec(&mut self)
        requires
            old(self).inv(),
        ensures
            final(self).inv(),
            final(self)@ == spec_reset(old(self)@),
    {
        let ghost g0 = self@;
        self.attrs = Attributes::baseline();
        let mut newcells: Vec<Vec<Cell>> = Vec::new();
        let mut r: usize = 0;
        while r < self.rows
            invariant
                self.scrollback_wf(),
                wf(g0),
                (GridModel { attrs: g0.attrs, ..self@ }) == g0,
                self@.attrs == Attributes::spec_baseline(),
                r <= g0.rows,
                newcells@.len() == r,
                forall|j: int|
                    0 <= j < r ==> (#[trigger] newcells@[j])@ == blank_row(
                        g0.cols,
                        Attributes::spec_baseline(),
                    ),
            decreases g0.rows - r,
        {
            newcells.push(make_blank_row(self.cols, self.attrs));
            r = r + 1;
        }
        self.cells = newcells;
        self.cursor_row = 0;
        self.cursor_col = 0;
        self.cursor_visible = true;
        self.wrap_mode = true;
        self.wrap_pending = false;
        self.saved = None;
        self.scroll_top = 0;
        self.scroll_bottom = self.rows - 1;
        self.alt = None;
        proof {
            assert(final(self)@ =~~= spec_reset(g0));
        }
    }

    /// Applies one action to the grid: exactly [`spec_apply`]. Total —
    /// no action can fail, whatever its parameters.
    #[verifier::rlimit(100)]
    pub fn apply(&mut self, a: &Action)
        requires
            old(self).inv(),
        ensures
            final(self).inv(),
            final(self)@ == spec_apply(old(self)@, a@),
    {
        match a {
            Action::Print(c) => {
                self.print_char(*c);
            },
            Action::LineFeed => {
                self.wrap_pending = false;
                self.advance_line_exec();
            },
            Action::CarriageReturn => {
                self.wrap_pending = false;
                self.cursor_col = 0;
            },
            Action::Tab => {
                self.wrap_pending = false;
                let next = (self.cursor_col / 8 + 1) * 8;
                self.cursor_col = if next > self.cols - 1 {
                    self.cols - 1
                } else {
                    next
                };
            },
            Action::Backspace => {
                self.wrap_pending = false;
                if self.cursor_col > 0 {
                    self.cursor_col = self.cursor_col - 1;
                }
            },
            Action::Bell => {
                self.wrap_pending = false;
            },
            Action::CursorUp(n) => {
                self.wrap_pending = false;
                let cnt = count_exec(*n);
                self.cursor_row = if (cnt as usize) > self.cursor_row {
                    0
                } else {
                    self.cursor_row - cnt as usize
                };
            },
            Action::CursorDown(n) => {
                self.wrap_pending = false;
                let cnt = count_exec(*n);
                let next = self.cursor_row + cnt as usize;
                self.cursor_row = if next > self.rows - 1 {
                    self.rows - 1
                } else {
                    next
                };
            },
            Action::CursorForward(n) => {
                self.wrap_pending = false;
                let cnt = count_exec(*n);
                let next = self.cursor_col + cnt as usize;
                self.cursor_col = if next > self.cols - 1 {
                    self.cols - 1
                } else {
                    next
                };
            },
            Action::CursorBack(n) => {
                self.wrap_pending = false;
                let cnt = count_exec(*n);
                self.cursor_col = if (cnt as usize) > self.cursor_col {
                    0
                } else {
                    self.cursor_col - cnt as usize
                };
            },
            Action::CursorPosition(r, c) => {
                self.wrap_pending = false;
                let vr: u16 = match r {
                    Some(v) => *v,
                    None => 1,
                };
                let vc: u16 = match c {
                    Some(v) => *v,
                    None => 1,
                };
                self.cursor_row = if vr == 0 {
                    0
                } else if (vr as usize) - 1 > self.rows - 1 {
                    self.rows - 1
                } else {
                    (vr as usize) - 1
                };
                self.cursor_col = if vc == 0 {
                    0
                } else if (vc as usize) - 1 > self.cols - 1 {
                    self.cols - 1
                } else {
                    (vc as usize) - 1
                };
            },
            Action::EraseInLine(m) => {
                self.wrap_pending = false;
                let mode: u16 = match m {
                    Some(v) => *v,
                    None => 0,
                };
                self.erase_line_exec(mode);
            },
            Action::EraseInDisplay(m) => {
                self.wrap_pending = false;
                let mode: u16 = match m {
                    Some(v) => *v,
                    None => 0,
                };
                self.erase_display_exec(mode);
            },
            Action::SetGraphicRendition(ps) => {
                self.wrap_pending = false;
                self.apply_sgr(ps);
            },
            Action::ScrollUp(n) => {
                self.wrap_pending = false;
                let cnt = count_exec(*n);
                self.scroll_up_count(cnt);
            },
            Action::ScrollDown(n) => {
                self.wrap_pending = false;
                let cnt = count_exec(*n);
                self.scroll_down_count(cnt);
            },
            Action::SetScrollRegion(t, b) => {
                self.wrap_pending = false;
                self.set_region_exec(*t, *b);
            },
            Action::SaveCursor => {
                self.wrap_pending = false;
                self.save_cursor_exec();
            },
            Action::RestoreCursor => {
                self.wrap_pending = false;
                self.restore_cursor_exec();
            },
            Action::SetMode(p, code) => {
                self.wrap_pending = false;
                self.mode_exec(*p, *code, true);
            },
            Action::ResetMode(p, code) => {
                self.wrap_pending = false;
                self.mode_exec(*p, *code, false);
            },
            Action::WindowTitle(t) => {
                self.wrap_pending = false;
                self.title = copy_bytes(t);
            },
            Action::Reset => {
                self.wrap_pending = false;
                self.reset_exec();
            },
        }
    }
}

/// A cursor movement count as executable code; see [`move_count`].
fn count_exec(p: Option<u16>) -> (r: u16)
    ensures
        r as int == move_count(p),
{
    match p {
        Some(v) => if v == 0 {
            1
        } else {
            v
        },
        None => 1,
    }
}

/// One simple SGR code applied; see [`sgr_one`].
fn sgr_one_exec(a: Attributes, code: u16) -> (r: Attributes)
    ensures
        r == sgr_one(a, code as int),
{
    if code == 0 {
        Attributes::baseline()
    } else if code == 1 {
        Attributes { flags: StyleFlags { bold: true, ..a.flags }, ..a }
    } else if code == 3 {
        Attributes { flags: StyleFlags { italic: true, ..a.flags }, ..a }
    } else if code == 4 {
        Attributes { flags: StyleFlags { underline: true, ..a.flags }, ..a }
    } else if code == 7 {
        Attributes { flags: StyleFlags { reverse: true, ..a.flags }, ..a }
    } else if code == 8 {
        Attributes { flags: StyleFlags { invisible: true, ..a.flags }, ..a }
    } else if code == 9 {
        Attributes { flags: StyleFlags { strikethrough: true, ..a.flags }, ..a }
    } else if code == 22 {
        Attributes { flags: StyleFlags { bold: false, ..a.flags }, ..a }
    } else if code == 23 {
        Attributes { flags: StyleFlags { italic: false, ..a.flags }, ..a }
    } else if code == 24 {
        Attributes { flags: StyleFlags { underline: false, ..a.flags }, ..a }
    } else if code == 27 {
        Attributes { flags: StyleFlags { reverse: false, ..a.flags }, ..a }
    } else if code == 28 {
        Attributes { flags: StyleFlags { invisible: false, ..a.flags }, ..a }
    } else if code == 29 {
        Attributes { flags: StyleFlags { strikethrough: false, ..a.flags }, ..a }
    } else if 30 <= code && code <= 37 {
        Attributes { fg: ColorRef::Indexed((code - 30) as u8), ..a }
    } else if code == 39 {
        Attributes { fg: ColorRef::DefaultForeground, ..a }
    } else if 40 <= code && code <= 47 {
        Attributes { bg: ColorRef::Indexed((code - 40) as u8), ..a }
    } else if code == 49 {
        Attributes { bg: ColorRef::DefaultBackground, ..a }
    } else if 90 <= code && code <= 97 {
        Attributes { fg: ColorRef::Indexed((code - 90 + 8) as u8), ..a }
    } else if 100 <= code && code <= 107 {
        Attributes { bg: ColorRef::Indexed((code - 100 + 8) as u8), ..a }
    } else {
        a
    }
}

/// The SGR parameter list folded over a rendition; see [`spec_sgr`].
fn sgr_exec(a0: Attributes, ps: &Vec<Option<u16>>) -> (r: Attributes)
    ensures
        r == spec_sgr(a0, ps@),
{
    let mut a = a0;
    let mut i: usize = 0;
    proof {
        assert(ps@.skip(0) =~= ps@);
    }
    while i < ps.len()
        invariant
            i <= ps@.len(),
            spec_sgr(a0, ps@) == spec_sgr(a, ps@.skip(i as int)),
        decreases ps@.len() - i,
    {
        let ghost pre = ps@.skip(i as int);
        let code: u16 = match ps[i] {
            Some(v) => v,
            None => 0,
        };
        proof {
            assert(pre[0] == ps@[i as int]);
        }
        if code == 38 || code == 48 {
            let rem = ps.len() - i;
            let five = if rem >= 3 {
                match ps[i + 1] {
                    Some(v) => v == 5,
                    None => false,
                }
            } else {
                false
            };
            let two = if rem >= 5 {
                match ps[i + 1] {
                    Some(v) => v == 2,
                    None => false,
                }
            } else {
                false
            };
            proof {
                if rem >= 3 {
                    assert(pre[1] == ps@[i as int + 1]);
                    assert(pre[2] == ps@[i as int + 2]);
                }
                if rem >= 5 {
                    assert(pre[3] == ps@[i as int + 3]);
                    assert(pre[4] == ps@[i as int + 4]);
                }
            }
            if five {
                let n: u16 = match ps[i + 2] {
                    Some(v) => v,
                    None => 0,
                };
                if n <= 255 {
                    if code == 38 {
                        a = Attributes { fg: ColorRef::Indexed(n as u8), ..a };
                    } else {
                        a = Attributes { bg: ColorRef::Indexed(n as u8), ..a };
                    }
                }
                proof {
                    assert(pre.skip(3) =~= ps@.skip(i as int + 3));
                }
                i = i + 3;
            } else if two {
                let rr: u16 = match ps[i + 2] {
                    Some(v) => v,
                    None => 0,
                };
                let gg: u16 = match ps[i + 3] {
                    Some(v) => v,
                    None => 0,
                };
                let bb: u16 = match ps[i + 4] {
                    Some(v) => v,
                    None => 0,
                };
                if rr <= 255 && gg <= 255 && bb <= 255 {
                    if code == 38 {
                        a = Attributes { fg: ColorRef::Rgb(rr as u8, gg as u8, bb as u8), ..a };
                    } else {
                        a = Attributes { bg: ColorRef::Rgb(rr as u8, gg as u8, bb as u8), ..a };
                    }
                }
                proof {
                    assert(pre.skip(5) =~= ps@.skip(i as int + 5));
                }
                i = i + 5;
            } else {
                proof {
                    assert(pre.skip(1) =~= ps@.skip(i as int + 1));
                }
                i = i + 1;
            }
        } else {
            a = sgr_one_exec(a, code);
            proof {
                assert(pre.skip(1) =~= ps@.skip(i as int + 1));
            }
            i = i + 1;
        }
    }
    proof {
        assert(ps@.skip(ps@.len() as int) =~= Seq::<Option<u16>>::empty());
    }
    a
}


/// The error a degenerate resize request returns: a grid is never
/// smaller than one cell.
#[derive(Clone, Copy, Debug, PartialEq, Eq, Structural)]
pub enum ResizeError {
    Degenerate,
}

/// A row cut or padded to a new width; see [`resize_row`].
fn fit_row(src: &Vec<Cell>, cols: usize, attrs: Attributes) -> (r: Vec<Cell>)
    ensures
        r@ == resize_row(src@, cols as int, attrs),
{
    let mut r: Vec<Cell> = Vec::new();
    let mut i: usize = 0;
    while i < cols
        invariant
            i <= cols,
            r@ =~= resize_row(src@, cols as int, attrs).take(i as int),
        decreases cols - i,
    {
        if i < src.len() {
            r.push(src[i]);
        } else {
            r.push(Cell::blank(attrs));
        }
        proof {
            assert(r@ =~= resize_row(src@, cols as int, attrs).take(i + 1));
        }
        i = i + 1;
    }
    proof {
        assert(r@ =~= resize_row(src@, cols as int, attrs));
    }
    r
}

proof fn lemma_sb_push_rows_snoc(sb: Seq<Seq<Cell>>, cap: int, rows: Seq<Seq<Cell>>, i: int)
    requires
        0 <= i < rows.len(),
    ensures
        sb_push_rows(sb, cap, rows.take(i + 1)) == sb_push(
            sb_push_rows(sb, cap, rows.take(i)),
            cap,
            rows[i],
        ),
    decreases i,
{
    if i == 0 {
        let t1 = rows.take(1);
        assert(t1.len() == 1);
        assert(t1[0] == rows[0]);
        assert(t1.drop_first() =~= Seq::<Seq<Cell>>::empty());
        assert(sb_push_rows(sb, cap, t1) == sb_push_rows(
            sb_push(sb, cap, rows[0]),
            cap,
            t1.drop_first(),
        ));
        assert(sb_push_rows(sb_push(sb, cap, rows[0]), cap, t1.drop_first()) == sb_push(
            sb,
            cap,
            rows[0],
        ));
        assert(rows.take(0).len() == 0);
        assert(sb_push_rows(sb, cap, rows.take(0)) == sb);
    } else {
        let sb1 = sb_push(sb, cap, rows[0]);
        let rest = rows.drop_first();
        assert(rows.take(i + 1).len() == i + 1);
        assert(rows.take(i + 1)[0] == rows[0]);
        assert(rows.take(i + 1).drop_first() =~= rest.take(i));
        assert(sb_push_rows(sb, cap, rows.take(i + 1)) == sb_push_rows(sb1, cap, rest.take(i)));
        assert(rows.take(i).len() == i);
        assert(rows.take(i)[0] == rows[0]);
        assert(rows.take(i).drop_first() =~= rest.take(i - 1));
        assert(sb_push_rows(sb, cap, rows.take(i)) == sb_push_rows(sb1, cap, rest.take(i - 1)));
        lemma_sb_push_rows_snoc(sb1, cap, rest, i - 1);
        assert(rest[i - 1] == rows[i]);
    }
}

impl Grid {
    /// Resizes the grid; see [`spec_resize`] for the exact policy. A
    /// zero dimension is rejected without touching the grid. After a
    /// successful resize the caller notifies the PTY session so the
    /// child process learns the new size.
    pub fn resize(&mut self, cols: u16, rows: u16) -> (res: Result<(), ResizeError>)
        requires
            old(self).inv(),
        ensures
            final(self).inv(),
            cols == 0 || rows == 0 ==> res is Err && final(self)@ == old(self)@,
            cols != 0 && rows != 0 ==> res is Ok && final(self)@ == spec_resize(
                old(self)@,
                cols as int,
                rows as int,
            ),
    {
        if cols == 0 || rows == 0 {
            return Err(ResizeError::Degenerate);
        }
        let ghost g0 = self@;
        let nc = cols as usize;
        let nr = rows as usize;
        let start: usize = if nr >= self.rows {
            0
        } else if self.cursor_row < self.rows - nr {
            self.cursor_row
        } else {
            self.rows - nr
        };
        proof {
            assert(start as int == keep_start(g0.rows, nr as int, g0.cursor_row));
            assert(start <= self.rows);
        }
        // Rows dropped off the top of the primary screen are history.
        if self.alt.is_none() {
            let mut d: usize = 0;
            proof {
                assert(g0.cells.take(0) =~= Seq::<Seq<Cell>>::empty());
            }
            while d < start
                invariant
                    wf(g0),
                    g0.alt is None,
                    d <= start <= g0.rows,
                    self.scrollback_wf(),
                    (GridModel { scrollback: g0.scrollback, ..self@ }) == g0,
                    self@.scrollback == sb_push_rows(
                        g0.scrollback,
                        g0.scrollback_cap,
                        g0.cells.take(d as int),
                    ),
                decreases start - d,
            {
                let row = copy_row(&self.cells[d]);
                self.scrollback.push(row);
                proof {
                    assert(row@ == g0.cells[d as int]);
                    lemma_sb_push_rows_snoc(g0.scrollback, g0.scrollback_cap, g0.cells, d as int);
                    assert(g0.cells.take(g0.cells.len() as int) =~= g0.cells);
                }
                d = d + 1;
            }
        }
        // The fitted active screen.
        let ghost fit = fit_screen(
            g0.cells,
            g0.cursor_row,
            g0.cursor_col,
            g0.rows,
            nc as int,
            nr as int,
            g0.attrs,
        );
        let mut newcells: Vec<Vec<Cell>> = Vec::new();
        let mut r: usize = 0;
        while r < nr
            invariant
                wf(g0),
                1 <= nc <= 0xFFFF,
                1 <= nr <= 0xFFFF,
                start as int == keep_start(g0.rows, nr as int, g0.cursor_row),
                start <= g0.rows,
                fit == fit_screen(
                    g0.cells,
                    g0.cursor_row,
                    g0.cursor_col,
                    g0.rows,
                    nc as int,
                    nr as int,
                    g0.attrs,
                ),
                self.scrollback_wf(),
                (GridModel { scrollback: g0.scrollback, ..self@ }) == g0,
                r <= nr,
                newcells@.len() == r,
                forall|j: int| 0 <= j < r ==> (#[trigger] newcells@[j])@ == fit.cells[j],
            decreases nr - r,
        {
            let row = if start + r < self.rows {
                fit_row(&self.cells[start + r], nc, self.attrs)
            } else {
                make_blank_row(nc, self.attrs)
            };
            newcells.push(row);
            r = r + 1;
        }
        // New cursor, from the old one and the kept window.
        let diff = self.cursor_row - start;
        let new_cr = if diff > nr - 1 {
            nr - 1
        } else {
            diff
        };
        let new_cc = if self.cursor_col > nc - 1 {
            nc - 1
        } else {
            self.cursor_col
        };
        // A parked primary screen is fitted the same way.
        let mut taken: Option<AltScreen> = None;
        core::mem::swap(&mut taken, &mut self.alt);
        match taken {
            Some(a) => {
                let ghost am = match g0.alt {
                    Some(m) => m,
                    None => AltModel { cells: Seq::empty(), cursor_row: 0, cursor_col: 0 },
                };
                let ghost afit = fit_screen(
                    am.cells,
                    am.cursor_row,
                    am.cursor_col,
                    g0.rows,
                    nc as int,
                    nr as int,
                    g0.attrs,
                );
                let astart: usize = if nr >= self.rows {
                    0
                } else if a.cursor_row < self.rows - nr {
                    a.cursor_row
                } else {
                    self.rows - nr
                };
                proof {
                    assert(astart as int == keep_start(g0.rows, nr as int, am.cursor_row));
                }
                let mut acells: Vec<Vec<Cell>> = Vec::new();
                let mut q: usize = 0;
                while q < nr
                    invariant
                        wf(g0),
                        g0.alt == Some(am),
                        1 <= nc <= 0xFFFF,
                        1 <= nr <= 0xFFFF,
                        rows_view(a.cells@) == am.cells,
                        astart as int == keep_start(g0.rows, nr as int, am.cursor_row),
                        astart <= g0.rows,
                        g0.rows == a.cells@.len(),
                        afit == fit_screen(
                            am.cells,
                            am.cursor_row,
                            am.cursor_col,
                            g0.rows,
                            nc as int,
                            nr as int,
                            g0.attrs,
                        ),
                        self@.attrs == g0.attrs,
                        q <= nr,
                        acells@.len() == q,
                        forall|j: int| 0 <= j < q ==> (#[trigger] acells@[j])@ == afit.cells[j],
                    decreases nr - q,
                {
                    let row = if astart + q < a.cells.len() {
                        fit_row(&a.cells[astart + q], nc, self.attrs)
                    } else {
                        make_blank_row(nc, self.attrs)
                    };
                    acells.push(row);
                    q = q + 1;
                }
                let adiff = a.cursor_row - astart;
                let acr = if adiff > nr - 1 {
                    nr - 1
                } else {
                    adiff
                };
                let acc = if a.cursor_col > nc - 1 {
                    nc - 1
                } else {
                    a.cursor_col
                };
                self.alt = Some(AltScreen { cells: acells, cursor_row: acr, cursor_col: acc });
            },
            None => {},
        }
        self.cells = newcells;
        self.cols = nc;
        self.rows = nr;
        self.cursor_row = new_cr;
        self.cursor_col = new_cc;
        self.wrap_pending = false;
        self.scroll_top = 0;
        self.scroll_bottom = nr - 1;
        proof {
            assert(final(self)@ =~~= spec_resize(g0, cols as int, rows as int));
        }
        Ok(())
    }
}

} // verus!
