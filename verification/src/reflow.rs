//! The resize engine: adjusting grid dimensions while preserving
//! content and cursor visibility.
//!
//! The policy is truncate-or-pad, not re-wrap: each kept row is cut or
//! padded to the new width, and when the row count shrinks the kept
//! window of rows follows the cursor — bottom-most rows by default,
//! shifted up just enough to keep the cursor on screen. Rows dropped
//! off the top of the primary screen go to the scrollback; scrollback
//! rows themselves keep their historical width. Growing fills new cells
//! with the current rendition and never pulls rows back out of the
//! scrollback.

use vstd::prelude::*;

use crate::color::Attributes;
use crate::color::Cell;
use crate::grid_model::AltModel;
use crate::grid_model::GridModel;
use crate::grid_model::blank_row;
use crate::grid_model::clamp;
use crate::grid_model::sb_push;
use crate::grid_model::wf;

verus! {

/// A row cut or padded to the new width; new cells are blank under the
/// given rendition.
pub open spec fn resize_row(row: Seq<Cell>, cols: int, attrs: Attributes) -> Seq<Cell> {
    Seq::new(
        cols as nat,
        |i: int|
            if i < row.len() {
                row[i]
            } else {
                Cell::spec_blank(attrs)
            },
    )
}

/// The first kept row when a screen of `rows` rows becomes `new_rows`
/// rows: the bottom-most window, shifted up when the cursor would fall
/// above it.
pub open spec fn keep_start(rows: int, new_rows: int, cur_row: int) -> int {
    if new_rows >= rows {
        0
    } else if cur_row < rows - new_rows {
        cur_row
    } else {
        rows - new_rows
    }
}

/// One screen (cell matrix plus cursor) fitted to new dimensions.
pub open spec fn fit_screen(
    cells: Seq<Seq<Cell>>,
    cur_row: int,
    cur_col: int,
    rows: int,
    new_cols: int,
    new_rows: int,
    attrs: Attributes,
) -> AltModel {
    let start = keep_start(rows, new_rows, cur_row);
    AltModel {
        cells: Seq::new(
            new_rows as nat,
            |r: int|
                if start + r < rows {
                    resize_row(cells[start + r], new_cols, attrs)
                } else {
                    blank_row(new_cols, attrs)
                },
        ),
        cursor_row: clamp(cur_row - start, 0, new_rows - 1),
        cursor_col: clamp(cur_col, 0, new_cols - 1),
    }
}

/// Rows appended to the scrollback in order, evicting the oldest as
/// needed.
pub open spec fn sb_push_rows(sb: Seq<Seq<Cell>>, cap: int, rows: Seq<Seq<Cell>>) -> Seq<
    Seq<Cell>,
>
    decreases rows.len(),
{
    if rows.len() == 0 {
        sb
    } else {
        sb_push_rows(sb_push(sb, cap, rows[0]), cap, rows.drop_first())
    }
}

/// What resizing to `new_cols` × `new_rows` means (both at least 1).
/// The active screen is fitted around its cursor; rows dropped off the
/// top of the primary screen go to the scrollback; a parked primary
/// screen is fitted the same way; the scroll region resets to the full
/// screen.
pub open spec fn spec_resize(g: GridModel, new_cols: int, new_rows: int) -> GridModel {
    let start = keep_start(g.rows, new_rows, g.cursor_row);
    let fitted = fit_screen(
        g.cells,
        g.cursor_row,
        g.cursor_col,
        g.rows,
        new_cols,
        new_rows,
        g.attrs,
    );
    let sb = if g.alt is None {
        sb_push_rows(g.scrollback, g.scrollback_cap, g.cells.take(start))
    } else {
        g.scrollback
    };
    let alt = match g.alt {
        Some(a) => Some(
            fit_screen(a.cells, a.cursor_row, a.cursor_col, g.rows, new_cols, new_rows, g.attrs),
        ),
        None => None,
    };
    GridModel {
        cols: new_cols,
        rows: new_rows,
        cells: fitted.cells,
        cursor_row: fitted.cursor_row,
        cursor_col: fitted.cursor_col,
        wrap_pending: false,
        scroll_top: 0,
        scroll_bottom: new_rows - 1,
        scrollback: sb,
        alt,
        ..g
    }
}

/// Resizing is idempotent: a second resize to the same dimensions
/// changes nothing — no content shift, no cursor movement and no
/// scrollback growth.
pub proof fn lemma_resize_idempotent(g: GridModel, new_cols: int, new_rows: int)
    requires
        wf(g),
        1 <= new_cols,
        1 <= new_rows,
    ensures
        spec_resize(spec_resize(g, new_cols, new_rows), new_cols, new_rows) == spec_resize(
            g,
            new_cols,
            new_rows,
        ),
{
    let g1 = spec_resize(g, new_cols, new_rows);
    let g2 = spec_resize(g1, new_cols, new_rows);
    assert(g1.rows == new_rows && g1.cols == new_cols);
    assert(keep_start(g1.rows, new_rows, g1.cursor_row) == 0);
    assert(g1.cells.take(0) =~= Seq::<Seq<Cell>>::empty());
    assert(g2.scrollback == g1.scrollback);
    assert forall|r: int| 0 <= r < new_rows implies g2.cells[r] == g1.cells[r] by {
        assert(g1.cells[r].len() == new_cols);
        assert(g2.cells[r] =~= g1.cells[r]);
    }
    assert(g2.cells =~= g1.cells);
    assert(0 <= g1.cursor_row < new_rows);
    assert(0 <= g1.cursor_col < new_cols);
    match g1.alt {
        Some(a1) => {
            let a2 = match g2.alt {
                Some(x) => x,
                None => a1,
            };
            assert(g2.alt is Some);
            assert forall|r: int| 0 <= r < new_rows implies a2.cells[r] == a1.cells[r] by {
                assert(a1.cells[r].len() == new_cols);
                assert(a2.cells[r] =~= a1.cells[r]);
            }
            assert(a2.cells =~= a1.cells);
            assert(0 <= a1.cursor_row < new_rows);
            assert(0 <= a1.cursor_col < new_cols);
            assert(a2 =~~= a1);
        },
        None => {},
    }
    assert(g2 =~~= g1);
}

} // verus!
