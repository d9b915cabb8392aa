//! Laws of the screen model that relate several operations.

use crate::grid::{lemma_at_rest, lemma_coord, lemma_window, Grid};
use crate::paint::{approach, diff_paint, differs, last_written, patch, Paint};
use crate::cell::Slot;
use vstd::prelude::*;

verus! {

/// No position differs from itself, so painting a buffer against a copy of
/// itself writes nothing.
pub proof fn lemma_diff_of_same(cells: Seq<Slot>, n: int, width: int)
    requires
        n <= cells.len(),
    ensures
        diff_paint(cells, cells, n, width) == Seq::<Paint>::empty(),
    decreases n,
{
    if n > 0 {
        assert(!differs(cells[n - 1], cells[n - 1]));
        lemma_diff_of_same(cells, n - 1, width);
    }
}

/// A refresh right after a render, or after another refresh, writes
/// nothing: the paint left the front buffer equal to the cells.
pub proof fn law_refresh_after_render(g: Grid)
    ensures
        g.painted().refresh_paint() == Seq::<Paint>::empty(),
        g.painted().painted() == g.painted(),
{
    lemma_diff_of_same(g.cells, g.capacity(), g.width);
}

/// Two jumps in a row bring cursor and marker back exactly when both were
/// at rest: inside the grid and not on the trailing half of a wide glyph.
pub proof fn law_jump_twice(g: Grid)
    requires
        g.wf(),
    ensures
        g.jump().jump() == g <==> g.settled(g.cursor) == g.cursor && g.settled(g.marker)
            == g.marker,
{
}

/// A jump always leaves the cursor on a cell of the window, and keeps the
/// cells.
pub proof fn law_jump_rests(g: Grid)
    requires
        g.wf(),
    ensures
        g.jump().wf(),
        0 <= g.jump().cursor < g.capacity(),
        g.jump().cells == g.cells,
{
    lemma_at_rest(g, g.marker);
    lemma_window(g.width, g.height);
}

/// The sign of a coordinate does not matter.
pub proof fn law_goto_mirror(g: Grid, col: int, row: int)
    ensures
        g.goto(-col, row) == g.goto(col, row),
        g.goto(col, -row) == g.goto(col, row),
{
}

/// A position past the grid is taken back to the last cell; that is the last
/// column of the last row unless the last cell is the trailing half of a
/// wide glyph.
pub proof fn law_goto_saturates(g: Grid, col: int, row: int)
    requires
        g.wf(),
        g.index_of(col, row) >= g.capacity(),
        !g.is_tail(g.capacity() - 1),
    ensures
        g.goto(col, row).cursor == g.capacity() - 1,
        g.goto(col, row).col() == g.width - 1,
        g.goto(col, row).row() == g.height - 1,
{
    let w = g.width;
    let h = g.height;
    lemma_window(w, h);
    let last = w * h - 1;
    assert(last == (h - 1) * w + (w - 1)) by (nonlinear_arith)
        requires
            last == w * h - 1,
    ;
    vstd::arithmetic::div_mod::lemma_fundamental_div_mod_converse(last, w, h - 1, w - 1);
}

/// A column at or past the width, in the last row or below it, saturates to
/// the last column.
pub proof fn law_column_saturates(g: Grid, k: int, row: int)
    requires
        g.wf(),
        0 <= k,
        crate::grid::magnitude(row) >= g.height - 1,
        !g.is_tail(g.capacity() - 1),
    ensures
        g.goto(g.width + k, row).col() == g.width - 1,
{
    let w = g.width;
    let r = crate::grid::magnitude(row);
    assert(r * w >= (g.height - 1) * w && (g.height - 1) * w + w == w * g.height) by (nonlinear_arith)
        requires
            r >= g.height - 1,
            w > 0,
    ;
    law_goto_saturates(g, w + k, row);
}

/// Sending the cursor to a pair of coordinates keeps the screen well
/// formed, changes nothing but the cursor, and leaves it on a cell of the
/// window.
pub proof fn lemma_goto_keeps(g: Grid, col: int, row: int)
    requires
        g.wf(),
    ensures
        g.goto(col, row).wf(),
        g.goto(col, row) == (Grid { cursor: g.goto(col, row).cursor, ..g }),
        0 <= g.goto(col, row).col() < g.width,
        0 <= g.goto(col, row).row() < g.height,
{
    let r = crate::grid::magnitude(row);
    assert(r * g.width >= 0) by (nonlinear_arith)
        requires
            r >= 0,
            g.width > 0,
    ;
    lemma_at_rest(g, g.index_of(col, row));
}

/// The four moves keep the screen well formed, change nothing but the
/// cursor, and leave it on a cell of the window.
pub proof fn law_moves_stay_in_window(g: Grid, n: int)
    requires
        g.wf(),
    ensures
        g.left(n).wf() && g.left(n).cells == g.cells,
        g.right(n).wf() && g.right(n).cells == g.cells,
        g.up(n).wf() && g.up(n).cells == g.cells,
        g.down(n).wf() && g.down(n).cells == g.cells,
        0 <= g.left(n).col() < g.width && 0 <= g.left(n).row() < g.height,
        0 <= g.right(n).col() < g.width && 0 <= g.right(n).row() < g.height,
        0 <= g.up(n).col() < g.width && 0 <= g.up(n).row() < g.height,
        0 <= g.down(n).col() < g.width && 0 <= g.down(n).row() < g.height,
{
    lemma_coord(g.cursor, g.width, g.height);
    let m = crate::grid::magnitude(n);
    let step = m + if g.is_wide(g.cursor) {
        1int
    } else {
        0int
    };
    lemma_goto_keeps(
        g,
        if m >= g.col() {
            0
        } else {
            g.col() - m
        },
        g.row(),
    );
    lemma_goto_keeps(
        g,
        if g.col() + step >= g.width - 1 {
            g.width - 1
        } else {
            g.col() + step
        },
        g.row(),
    );
    lemma_goto_keeps(
        g,
        g.col(),
        if m >= g.row() {
            0
        } else {
            g.row() - m
        },
    );
    lemma_goto_keeps(
        g,
        g.col(),
        if g.row() + m >= g.height - 1 {
            g.height - 1
        } else {
            g.row() + m
        },
    );
}

/// Writing a glyph keeps the screen well formed and its window as it was.
pub proof fn lemma_put_keeps(g: Grid, glyph: Seq<char>, wide: bool)
    requires
        g.wf(),
    ensures
        g.put(glyph, wide).wf(),
        g.put(glyph, wide).width == g.width,
        g.put(glyph, wide).height == g.height,
{
    lemma_window(g.width, g.height);
}

/// Applying one grapheme cluster keeps the screen well formed and its
/// window as it was.
pub proof fn lemma_segment_keeps(g: Grid, seg: Seq<char>, width: int)
    requires
        g.wf(),
    ensures
        g.segment(seg, width).wf(),
        g.segment(seg, width).width == g.width,
        g.segment(seg, width).height == g.height,
{
    lemma_coord(g.cursor, g.width, g.height);
    lemma_put_keeps(g, seg, false);
    lemma_put_keeps(g, seg, true);
    lemma_put_keeps(g, seq!['^'], false);
    lemma_put_keeps(g, seq![g.placeholder], true);
    law_moves_stay_in_window(g, 1);
    lemma_goto_keeps(g, 0, g.row());
    lemma_goto_keeps(g, 0, g.row() + 1);
    lemma_goto_keeps(g, 0, g.height - 1);
    let stop = (g.col() / g.tab_size + 1) * g.tab_size;
    lemma_goto_keeps(
        g,
        if stop > g.width - 1 {
            g.width - 1
        } else {
            stop
        },
        g.row(),
    );
}

/// Writing any content keeps the screen well formed: the window stays as
/// it was, and there are as many cells as the window has positions.
pub proof fn law_content_keeps_window(g: Grid, segs: Seq<Seq<char>>)
    requires
        g.wf(),
    ensures
        g.content(segs).wf(),
        g.content(segs).width == g.width,
        g.content(segs).height == g.height,
        g.content(segs).cells.len() == g.width * g.height,
    decreases segs.len(),
{
    if segs.len() > 0 {
        law_content_keeps_window(g, segs.drop_last());
        lemma_segment_keeps(
            g.content(segs.drop_last()),
            segs.last(),
            crate::text::display_width(segs.last()) as int,
        );
    }
}

/// After a wide glyph was written, the cell it was written to is a leading
/// half and the next one a trailing half with an empty glyph.
pub proof fn law_wide_cell(g: Grid, glyph: Seq<char>)
    requires
        g.wf(),
        g.fits(true),
    ensures
        ({
            let i = g.target();
            let after = g.set_cell(glyph, true);
            &&& after.cells[i] matches Some(c) && c.is_wide && !c.is_part && c.glyph == glyph
            &&& after.cells[i + 1] matches Some(c) && c.is_wide && c.is_part && c.glyph.len() == 0
            &&& after.cursor == i + 2
        }),
{
    lemma_window(g.width, g.height);
}

/// Clearing everything leaves every cell empty and the cursor at the
/// origin.
pub proof fn law_clear_all(g: Grid)
    requires
        g.wf(),
    ensures
        g.cleared(crate::style::Clear::All).wf(),
        g.cleared(crate::style::Clear::All).cursor == 0,
        forall|i: int|
            0 <= i < g.capacity() ==> g.cleared(crate::style::Clear::All).cells[i] is None,
{
}

/// Up to the first position that differs, a refresh writes nothing.
pub proof fn lemma_diff_before_change(cells: Seq<Slot>, front: Seq<Slot>, n: int, width: int)
    requires
        n <= cells.len(),
        forall|j: int| 0 <= j < n ==> !differs(cells[j], front[j]),
    ensures
        diff_paint(cells, front, n, width) == Seq::<Paint>::empty(),
        last_written(cells, front, n) is None,
    decreases n,
{
    if n > 0 {
        lemma_diff_before_change(cells, front, n - 1, width);
    }
}

/// When one position differs from what the device shows, a refresh moves
/// the cursor there once and writes that position alone.
pub proof fn law_refresh_single_change(g: Grid, i: int)
    requires
        g.wf(),
        0 <= i < g.capacity(),
        forall|j: int| 0 <= j < g.capacity() ==> (differs(g.cells[j], g.front[j]) <==> j == i),
    ensures
        g.refresh_paint() == seq![Paint::Goto((i % g.width) as i16, (i / g.width) as i16)] + patch(
            g.cells[i],
            g.front[i],
        ),
{
    lemma_diff_before_change(g.cells, g.front, i, g.width);
    lemma_single_change_after(g.cells, g.front, i, g.capacity(), g.width);
    assert(approach(None, i, g.width) =~= seq![
        Paint::Goto((i % g.width) as i16, (i / g.width) as i16),
    ]);
}

/// Past the only position that differs, a refresh writes nothing more.
pub proof fn lemma_single_change_after(
    cells: Seq<Slot>,
    front: Seq<Slot>,
    i: int,
    n: int,
    width: int,
)
    requires
        0 <= i < n <= cells.len(),
        forall|j: int| 0 <= j < n ==> (differs(cells[j], front[j]) <==> j == i),
    ensures
        diff_paint(cells, front, n, width) == approach(None, i, width) + patch(cells[i], front[i]),
    decreases n,
{
    if n == i + 1 {
        lemma_diff_before_change(cells, front, i, width);
        assert(diff_paint(cells, front, n, width) =~= approach(None, i, width) + patch(
            cells[i],
            front[i],
        ));
    } else {
        lemma_single_change_after(cells, front, i, n - 1, width);
    }
}

/// A change of the window keeps the screen well formed and leaves the
/// cursor on a cell of the new window.
pub proof fn law_resize_rests(g: Grid, w: int, h: int)
    requires
        g.wf(),
        0 < w <= crate::grid::MAX_SIDE,
        0 < h <= crate::grid::MAX_SIDE,
    ensures
        g.resized(w, h).wf(),
        g.resized(w, h).width == w,
        g.resized(w, h).height == h,
        g.resized(w, h).cells.len() == w * h,
        0 <= g.resized(w, h).cursor < w * h,
        0 <= g.resized(w, h).col() < w,
        0 <= g.resized(w, h).row() < h,
{
    lemma_window(w, h);
    let wide = Grid {
        width: w,
        height: h,
        cells: crate::grid::fit(g.cells, w * h),
        front: crate::grid::fit(g.front, w * h),
        cursor: 0,
        ..g
    };
    assert(wide.at(g.cursor) == g.resized(w, h));
    lemma_at_rest(wide, g.cursor);
}

} // verus!
