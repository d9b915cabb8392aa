//! The screen buffer: the executable grid of cells behind one screen.

use crate::cell::{blank_slots, slots_view, Cell, CellView};
use crate::grid::{
    fit, lemma_at_rest, lemma_coord, lemma_window, magnitude, spaces, Grid, Platform, MAX_INDEX,
};
use crate::text::{
    copy_chars, glyphs_view, grapheme_clusters, graphemes, has_selector, is_ascii, string_of, width,
};
use crate::paint::{copy_slots, refresh_cells, render_cells, Paint};
use crate::style::{Clear, Color, Style, Styles};
use vstd::prelude::*;

verus! {

/// A grid of cells with its cursor, marker and settings, and a second grid
/// that mirrors what was painted last.
pub struct ScreenBuffer {
    cursor: usize,
    marker: usize,
    inner: Vec<Option<Cell>>,
    front: Vec<Option<Cell>>,
    window: (i16, i16),
    tab_size: usize,
    active_style: Styles,
    placeholder: char,
    platform: Platform,
}

/// The absolute value of a coordinate.
pub fn distance(n: i16) -> (r: usize)
    ensures
        r == magnitude(n as int),
        r <= 0x8000,
{
    if n < 0 {
        (-(n as i32)) as usize
    } else {
        n as usize
    }
}

impl ScreenBuffer {
    /// The state of the screen as a [`Grid`].
    pub closed spec fn view(&self) -> Grid {
        Grid {
            cursor: self.cursor as int,
            marker: self.marker as int,
            cells: slots_view(self.inner@),
            front: slots_view(self.front@),
            width: self.window.0 as int,
            height: self.window.1 as int,
            tab_size: self.tab_size as int,
            style: self.active_style,
            placeholder: self.placeholder,
            platform: self.platform,
        }
    }

    /// The invariant that every constructor establishes and every method
    /// keeps.
    pub open spec fn wf(&self) -> bool {
        self@.wf()
    }

    /// An empty screen of `w` columns and `h` rows on which a line feed
    /// keeps the column.
    pub fn new(w: i16, h: i16) -> (r: ScreenBuffer)
        requires
            w > 0,
            h > 0,
        ensures
            r.wf(),
            r@ == Grid::new(w as int, h as int, Platform::Ansi),
    {
        ScreenBuffer::with_platform(w, h, Platform::Ansi)
    }

    /// An empty screen of `w` columns and `h` rows.
    pub fn with_platform(w: i16, h: i16, platform: Platform) -> (r: ScreenBuffer)
        requires
            w > 0,
            h > 0,
        ensures
            r.wf(),
            r@ == Grid::new(w as int, h as int, platform),
    {
        proof {
            lemma_window(w as int, h as int);
        }
        let capacity = (w as usize) * (h as usize);
        ScreenBuffer {
            cursor: 0,
            marker: 0,
            inner: blank_slots(capacity),
            front: blank_slots(capacity),
            window: (w, h),
            tab_size: 8,
            active_style: Styles::plain(),
            placeholder: '\u{1F6A7}',
            platform,
        }
    }

    /// Sends the cursor to `index` and lets it come to rest.
    fn seek(&mut self, index: usize)
        requires
            old(self).wf(),
        ensures
            final(self).wf(),
            final(self)@ == old(self)@.at(index as int),
    {
        proof {
            lemma_window(self.window.0 as int, self.window.1 as int);
        }
        let len = self.inner.len();
        let mut i = if index < len {
            index
        } else {
            len - 1
        };
        let on_tail = match &self.inner[i] {
            Some(cell) => cell.is_part,
            None => false,
        };
        if on_tail && i > 0 {
            i -= 1;
        }
        self.cursor = i;
    }

    /// Lets the cursor come to rest where it stands, and returns its index.
    pub fn cursor(&mut self) -> (r: usize)
        requires
            old(self).wf(),
        ensures
            final(self).wf(),
            final(self)@ == old(self)@.at(old(self)@.cursor),
            r == final(self)@.cursor,
    {
        self.seek(self.cursor);
        self.cursor
    }

    /// Column and row of the cursor.
    pub fn coord(&self) -> (r: (i16, i16))
        requires
            self.wf(),
        ensures
            r.0 == self@.col(),
            r.1 == self@.row(),
            0 <= r.0 < self@.width,
            0 <= r.1 <= self@.height,
    {
        proof {
            lemma_coord(self.cursor as int, self.window.0 as int, self.window.1 as int);
        }
        let width = self.window.0 as usize;
        ((self.cursor % width) as i16, (self.cursor / width) as i16)
    }

    /// Row of the cursor.
    pub fn row(&self) -> (r: i16)
        requires
            self.wf(),
        ensures
            r == self@.row(),
    {
        proof {
            lemma_coord(self.cursor as int, self.window.0 as int, self.window.1 as int);
        }
        (self.cursor / (self.window.0 as usize)) as i16
    }

    /// Width and height of the window.
    pub fn size(&self) -> (r: (i16, i16))
        ensures
            r.0 == self@.width,
            r.1 == self@.height,
    {
        self.window
    }

    pub fn width(&self) -> (r: i16)
        ensures
            r == self@.width,
    {
        self.window.0
    }

    pub fn height(&self) -> (r: i16)
        ensures
            r == self@.height,
    {
        self.window.1
    }

    /// The linear index of a pair of coordinates.
    fn index_of(&self, col: i16, row: i16) -> (r: usize)
        requires
            self.wf(),
        ensures
            r == self@.index_of(col as int, row as int),
            r <= MAX_INDEX,
    {
        let c = distance(col);
        let r = distance(row);
        let w = self.window.0 as usize;
        assert(r * w + c <= 0x8000 * 0x7fff + 0x8000) by (nonlinear_arith)
            requires
                r <= 0x8000,
                0 < w <= 0x7fff,
                c <= 0x8000,
        ;
        r * w + c
    }

    /// Moves the cursor to column `col` of row `row`. A negative coordinate
    /// counts by its absolute value; a position past the grid is taken back
    /// to the last cell.
    pub fn sync_coord(&mut self, col: i16, row: i16)
        requires
            old(self).wf(),
        ensures
            final(self).wf(),
            final(self)@ == old(self)@.goto(col as int, row as int),
            0 <= final(self)@.col() < final(self)@.width,
            0 <= final(self)@.row() < final(self)@.height,
    {
        let index = self.index_of(col, row);
        proof {
            lemma_at_rest(self@, index as int);
        }
        self.seek(index);
    }

    /// Moves the cursor `n` columns to the left, at most to the first.
    pub fn sync_left(&mut self, n: i16)
        requires
            old(self).wf(),
        ensures
            final(self).wf(),
            final(self)@ == old(self)@.left(n as int),
            0 <= final(self)@.col() < final(self)@.width,
            0 <= final(self)@.row() < final(self)@.height,
    {
        let n = distance(n);
        let (col, row) = self.coord();
        let col = if n >= col as usize {
            0
        } else {
            col - n as i16
        };
        self.sync_coord(col, row);
    }

    /// Moves the cursor `n` columns to the right, at most to the last; one
    /// more when it stands on a wide glyph.
    pub fn sync_right(&mut self, n: i16)
        requires
            old(self).wf(),
        ensures
            final(self).wf(),
            final(self)@ == old(self)@.right(n as int),
            0 <= final(self)@.col() < final(self)@.width,
            0 <= final(self)@.row() < final(self)@.height,
    {
        let mut n = distance(n);
        if self.cursor < self.inner.len() {
            let on_wide = match &self.inner[self.cursor] {
                Some(cell) => cell.is_wide,
                None => false,
            };
            if on_wide {
                n += 1;
            }
        }
        let (col, row) = self.coord();
        let last = self.window.0 - 1;
        let col = if col as usize + n >= last as usize {
            last
        } else {
            col + n as i16
        };
        self.sync_coord(col, row);
    }

    /// Moves the cursor `n` rows up, at most to the first.
    pub fn sync_up(&mut self, n: i16)
        requires
            old(self).wf(),
        ensures
            final(self).wf(),
            final(self)@ == old(self)@.up(n as int),
            0 <= final(self)@.col() < final(self)@.width,
            0 <= final(self)@.row() < final(self)@.height,
    {
        let n = distance(n);
        let (col, row) = self.coord();
        let row = if n >= row as usize {
            0
        } else {
            row - n as i16
        };
        self.sync_coord(col, row);
    }

    /// Moves the cursor `n` rows down, at most to the last.
    pub fn sync_down(&mut self, n: i16)
        requires
            old(self).wf(),
        ensures
            final(self).wf(),
            final(self)@ == old(self)@.down(n as int),
            0 <= final(self)@.col() < final(self)@.width,
            0 <= final(self)@.row() < final(self)@.height,
    {
        let n = distance(n);
        let (col, row) = self.coord();
        let last = self.window.1 - 1;
        let row = if row as usize + n >= last as usize {
            last
        } else {
            row + n as i16
        };
        self.sync_coord(col, row);
    }

    /// Swaps cursor and marker, and lets the new cursor come to rest.
    pub fn jump(&mut self)
        requires
            old(self).wf(),
        ensures
            final(self).wf(),
            final(self)@ == old(self)@.jump(),
    {
        proof {
            lemma_window(self.window.0 as int, self.window.1 as int);
        }
        let index = self.cursor;
        let marker = self.marker;
        self.seek(marker);
        self.marker = index;
    }

    /// Sets the marker to column `col` of row `row`, as it is.
    pub fn sync_marker(&mut self, col: i16, row: i16)
        requires
            old(self).wf(),
        ensures
            final(self).wf(),
            final(self)@ == old(self)@.mark(col as int, row as int),
    {
        self.marker = self.index_of(col, row);
    }

    /// Places the cursor at `index` as it is, at most one past the last cell.
    pub fn sync_index(&mut self, index: usize)
        requires
            old(self).wf(),
        ensures
            final(self).wf(),
            final(self)@ == old(self)@.placed(index as int),
    {
        let len = self.inner.len();
        self.cursor = if index < len {
            index
        } else {
            len
        };
    }

    /// Sets the distance between tab stops.
    pub fn sync_tab_size(&mut self, n: usize)
        requires
            old(self).wf(),
            n > 0,
        ensures
            final(self).wf(),
            final(self)@ == old(self)@.with_tab_size(n as int),
    {
        self.tab_size = n;
    }

    /// Sets the glyph that stands for a cluster of unknown width.
    pub fn sync_placeholder(&mut self, ch: char)
        requires
            old(self).wf(),
        ensures
            final(self).wf(),
            final(self)@ == old(self)@.with_placeholder(ch),
    {
        self.placeholder = ch;
    }

    /// Changes the window to `w` columns and `h` rows. Cells are kept by
    /// their linear index; new ones are empty. The cursor comes to rest on a
    /// cell of the new window.
    pub fn sync_size(&mut self, w: i16, h: i16)
        requires
            old(self).wf(),
            w > 0,
            h > 0,
        ensures
            final(self).wf(),
            final(self)@ == old(self)@.resized(w as int, h as int),
            0 <= final(self)@.cursor < w * h,
            0 <= final(self)@.col() < w,
            0 <= final(self)@.row() < h,
    {
        proof {
            lemma_window(w as int, h as int);
        }
        let capacity = (w as usize) * (h as usize);
        let index = self.cursor;
        self.window = (w, h);
        fit_slots(&mut self.inner, capacity);
        fit_slots(&mut self.front, capacity);
        self.cursor = 0;
        proof {
            lemma_at_rest(self@, index as int);
        }
        self.seek(index);
    }

    /// Replaces one component of the style given to new cells.
    pub fn sync_style(&mut self, style: Style)
        requires
            old(self).wf(),
        ensures
            final(self).wf(),
            final(self)@ == old(self)@.with_style(style),
    {
        self.active_style = self.active_style.with(style);
    }

    /// Replaces the style given to new cells.
    pub fn sync_styles(&mut self, f: Color, b: Color, fx: u32)
        requires
            old(self).wf(),
        ensures
            final(self).wf(),
            final(self)@ == old(self)@.with_styles(f, b, fx),
    {
        self.active_style = Styles { fg: f, bg: b, fx };
    }

    /// The cells, row by row.
    pub fn cells(&self) -> (r: &Vec<Option<Cell>>)
        ensures
            slots_view(r@) == self@.cells,
    {
        &self.inner
    }

    /// The glyph under the cursor.
    pub fn getch(&self) -> (r: String)
        requires
            self.wf(),
        ensures
            r@ == self@.getch(),
    {
        proof {
            reveal_strlit(" ");
            assert(" "@ =~= seq![' ']);
        }
        let index = self.cursor;
        if index >= self.inner.len() {
            return String::from_str(" ");
        }
        match &self.inner[index] {
            Some(cell) => {
                if cell.is_part {
                    if index == 0 {
                        return String::from_str(" ");
                    }
                    match &self.inner[index - 1] {
                        Some(lead) => string_of(&lead.glyph),
                        None => String::from_str(" "),
                    }
                } else {
                    string_of(&cell.glyph)
                }
            },
            None => String::from_str(" "),
        }
    }

    /// Takes position `i` out and adds an empty one at the end.
    fn remove_at(&mut self, i: usize)
        requires
            old(self).wf(),
            i < old(self)@.capacity(),
        ensures
            final(self).wf(),
            final(self)@ == old(self)@.without(i as int),
    {
        self.inner.remove(i);
        self.inner.push(None);
        proof {
            assert(slots_view(self.inner@) =~= slots_view(old(self).inner@).remove(i as int).push(
                None,
            ));
        }
    }

    /// Deletes the glyph under the cursor and moves what follows it to the
    /// left.
    pub fn delch(&mut self)
        requires
            old(self).wf(),
        ensures
            final(self).wf(),
            final(self)@ == old(self)@.delch(),
    {
        let index = self.cursor;
        if index >= self.inner.len() {
            return ;
        }
        let (wide, part) = match &self.inner[index] {
            Some(cell) => (cell.is_wide, cell.is_part),
            None => (false, false),
        };
        if part && index > 0 {
            self.remove_at(index - 1);
            self.remove_at(index - 1);
            self.cursor = index - 1;
        } else if wide && !part {
            self.remove_at(index);
            self.remove_at(index);
        } else {
            self.remove_at(index);
        }
    }

    /// Writes one glyph at the cursor in the active style and moves the
    /// cursor behind it. A cursor past the grid writes to the last cell.
    /// After a wide glyph the written cell is a leading half and the next
    /// one a trailing half with an empty glyph.
    pub fn set_cell(&mut self, ch: Vec<char>, is_wide: bool)
        requires
            old(self).wf(),
            old(self)@.fits(is_wide),
        ensures
            final(self).wf(),
            final(self)@ == old(self)@.set_cell(ch@, is_wide),
            is_wide ==> {
                let i = old(self)@.target();
                &&& final(self)@.cells[i] matches Some(c) && c.is_wide && !c.is_part
                &&& final(self)@.cells[i + 1] matches Some(c) && c.is_part && c.glyph.len() == 0
            },
    {
        proof {
            lemma_window(self.window.0 as int, self.window.1 as int);
        }
        let len = self.inner.len();
        let index = if self.cursor >= len {
            len - 1
        } else {
            self.cursor
        };
        let ghost before = self.inner@;
        let ghost glyph = ch@;
        if is_wide {
            let lead = Cell::wide(ch, self.active_style);
            let tail = Cell::tail(self.active_style);
            self.inner.set(index, Some(lead));
            self.inner.set(index + 1, Some(tail));
            self.cursor = index + 2;
            proof {
                assert(slots_view(self.inner@) =~= slots_view(before).update(
                    index as int,
                    Some(CellView::wide(glyph, self.active_style)),
                ).update(index + 1, Some(CellView::tail(self.active_style))));
            }
        } else {
            let from_wide = match &self.inner[index] {
                Some(cell) => cell.is_wide,
                None => false,
            };
            let cell = Cell::narrow(ch, self.active_style);
            self.inner.set(index, Some(cell));
            self.cursor = index + 1;
            if from_wide {
                self.inner.set(index + 1, None);
                self.cursor = index + 2;
                proof {
                    assert(slots_view(self.inner@) =~= slots_view(before).update(
                        index as int,
                        Some(CellView::narrow(glyph, self.active_style)),
                    ).update(index + 1, None));
                }
            } else {
                proof {
                    assert(slots_view(self.inner@) =~= slots_view(before).update(
                        index as int,
                        Some(CellView::narrow(glyph, self.active_style)),
                    ));
                }
            }
        }
    }

    /// Writes one glyph at the cursor where it fits; a glyph that would take
    /// a cell past the grid is dropped.
    pub fn put(&mut self, ch: Vec<char>, is_wide: bool)
        requires
            old(self).wf(),
        ensures
            final(self).wf(),
            final(self)@ == old(self)@.put(ch@, is_wide),
    {
        proof {
            lemma_window(self.window.0 as int, self.window.1 as int);
        }
        let len = self.inner.len();
        let index = if self.cursor >= len {
            len - 1
        } else {
            self.cursor
        };
        let on_wide = match &self.inner[index] {
            Some(cell) => cell.is_wide,
            None => false,
        };
        if (is_wide || on_wide) && index + 1 >= len {
            return ;
        }
        self.set_cell(ch, is_wide);
    }

    /// Moves the cursor to the first column of the next row, or of the last
    /// row.
    fn crlf(&mut self)
        requires
            old(self).wf(),
        ensures
            final(self).wf(),
            final(self)@ == old(self)@.crlf(),
    {
        let row = self.row();
        let height = self.window.1;
        if height as i32 > row as i32 + 1 {
            self.sync_coord(0, row + 1);
        } else {
            self.sync_coord(0, height - 1);
        }
    }

    /// Moves the cursor to the next tab stop, at most to the last column.
    fn tab(&mut self)
        requires
            old(self).wf(),
        ensures
            final(self).wf(),
            final(self)@ == old(self)@.tab(),
    {
        let (col, row) = self.coord();
        let col = col as usize;
        let last = (self.window.0 - 1) as usize;
        let tab = self.tab_size;
        proof {
            lemma_coord(self.cursor as int, self.window.0 as int, self.window.1 as int);
            let q = col as int / tab as int;
            assert(0 <= q * tab <= col && (q + 1) * tab == q * tab + tab) by (nonlinear_arith)
                requires
                    0 <= col,
                    0 < tab,
                    q == col as int / tab as int,
            ;
        }
        let target = if tab > last {
            last
        } else {
            let stop = (col / tab) * tab + tab;
            if stop > last {
                last
            } else {
                stop
            }
        };
        self.sync_coord(target as i16, row);
    }

    /// Applies one cluster of ASCII code points: the control characters
    /// move the cursor, an escape shows as `^`, anything else is written as
    /// a narrow glyph.
    pub fn set_ascii(&mut self, s: &Vec<char>)
        requires
            old(self).wf(),
        ensures
            final(self).wf(),
            final(self)@ == old(self)@.set_ascii(s@),
    {
        let n = s.len();
        if n == 1 && s[0] == '\x00' {
        } else if n == 1 && s[0] == '\r' {
            let row = self.row();
            self.sync_coord(0, row);
        } else if n == 1 && s[0] == '\n' {
            match self.platform {
                Platform::Ansi => self.sync_down(1),
                Platform::Console => self.crlf(),
            }
        } else if n == 2 && s[0] == '\r' && s[1] == '\n' {
            self.crlf();
        } else if n == 1 && s[0] == '\t' {
            self.tab();
        } else if n == 1 && s[0] == '\x1B' {
            let ch: Vec<char> = vec!['^'];
            assert(ch@ =~= seq!['^']);
            self.put(ch, false);
        } else {
            self.put(copy_chars(s), false);
        }
    }

    /// Applies one grapheme cluster whose display width is `width`. An ASCII
    /// cluster goes through `set_ascii`. Of the others, width 2 and width 1
    /// with a variation selector 16 are written as wide glyphs, width 1 as a
    /// narrow glyph, and any other width as the placeholder in a wide cell.
    pub fn sync_segment(&mut self, seg: &Vec<char>, width: usize)
        requires
            old(self).wf(),
        ensures
            final(self).wf(),
            final(self)@ == old(self)@.segment(seg@, width as int),
    {
        if is_ascii(seg) {
            self.set_ascii(seg);
        } else if width == 1 {
            let wide = has_selector(seg);
            self.put(copy_chars(seg), wide);
        } else if width == 2 {
            self.put(copy_chars(seg), true);
        } else {
            let ch: Vec<char> = vec![self.placeholder];
            assert(ch@ =~= seq![self.placeholder]);
            self.put(ch, true);
        }
    }

    /// Writes `content` at the cursor: the text is split into grapheme
    /// clusters, and each cluster is applied in turn.
    pub fn sync_content(&mut self, content: &str)
        requires
            old(self).wf(),
        ensures
            final(self).wf(),
            final(self)@ == old(self)@.content(grapheme_clusters(content@)),
            final(self)@.width == old(self)@.width,
            final(self)@.height == old(self)@.height,
            final(self)@.cells.len() == old(self)@.width * old(self)@.height,
    {
        let segments = graphemes(content);
        let ghost start = self@;
        let ghost segs = glyphs_view(segments@);
        let mut i: usize = 0;
        while i < segments.len()
            invariant
                i <= segments.len(),
                self.wf(),
                segs == glyphs_view(segments@),
                self@ == start.content(segs.take(i as int)),
                self@.width == start.width,
                self@.height == start.height,
            decreases segments.len() - i,
        {
            let seg = &segments[i];
            let w = if is_ascii(seg) {
                0
            } else {
                width(seg)
            };
            self.sync_segment(seg, w);
            proof {
                assert(segs.take(i + 1).drop_last() =~= segs.take(i as int));
                assert(segs.take(i + 1).last() == seg@);
            }
            i += 1;
        }
        proof {
            assert(segs.take(segments.len() as int) =~= segs);
        }
    }

    /// Empties the positions from `from` up to `to`.
    fn blank(&mut self, from: usize, to: usize)
        requires
            old(self).wf(),
        ensures
            final(self).wf(),
            final(self)@ == old(self)@.blank(from as int, to as int),
    {
        let len = self.inner.len();
        let stop = if to < len {
            to
        } else {
            len
        };
        let ghost before = self.inner@;
        let mut i = from;
        while i < stop
            invariant
                stop <= len,
                len == before.len(),
                self.inner@.len() == len,
                from <= i,
                i <= stop || i == from,
                forall|j: int| 0 <= j < len && !(from <= j < i) ==> self.inner@[j] == before[j],
                forall|j: int| from <= j < i && j < len ==> self.inner@[j] is None,
                self.cursor == old(self).cursor,
                self.marker == old(self).marker,
                self.front == old(self).front,
                self.window == old(self).window,
                self.tab_size == old(self).tab_size,
                self.active_style == old(self).active_style,
                self.placeholder == old(self).placeholder,
                self.platform == old(self).platform,
            decreases stop - i,
        {
            self.inner.set(i, None);
            i += 1;
        }
        proof {
            assert(slots_view(self.inner@) =~= old(self)@.blank(from as int, to as int).cells);
        }
    }

    /// Empties a region of the grid: all of it (the cursor goes to the
    /// origin), the rest of the cursor's row, the whole row (the cursor goes
    /// to its first column), everything before the cursor, or everything
    /// from the cursor on.
    pub fn sync_clear(&mut self, clr: Clear)
        requires
            old(self).wf(),
        ensures
            final(self).wf(),
            final(self)@ == old(self)@.cleared(clr),
            clr == Clear::All ==> final(self)@.cursor == 0 && forall|i: int|
                0 <= i < final(self)@.cells.len() ==> final(self)@.cells[i] is None,
    {
        proof {
            lemma_coord(self.cursor as int, self.window.0 as int, self.window.1 as int);
        }
        let len = self.inner.len();
        let w = self.window.0 as usize;
        let row = self.cursor / w;
        assert(row * w <= (row + 1) * w <= 0x8000 * 0x7fff) by (nonlinear_arith)
            requires
                0 <= row <= 0x7fff,
                0 < w <= 0x7fff,
        ;
        match clr {
            Clear::All => {
                self.blank(0, len);
                self.cursor = 0;
                proof {
                    assert(self@.cells =~= crate::grid::blanks(len as int));
                }
            },
            Clear::NewLn => {
                self.blank(self.cursor, (row + 1) * w);
            },
            Clear::CurrentLn => {
                self.blank(row * w, (row + 1) * w);
                self.sync_coord(0, row as i16);
            },
            Clear::CursorUp => {
                self.blank(0, self.cursor);
            },
            Clear::CursorDn => {
                self.blank(self.cursor, len);
            },
        }
    }

    /// The text of the grid: every glyph in order, a space for each empty
    /// position, padded with spaces to the capacity.
    pub fn check_contents(&self) -> (r: String)
        requires
            self.wf(),
        ensures
            r@ == self@.text(),
    {
        let capacity = self.inner.len();
        let mut chars: Vec<char> = Vec::new();
        let mut length: usize = 0;
        let mut i: usize = 0;
        let mut cut = false;
        while i < capacity && !cut
            invariant
                capacity == self.inner@.len(),
                i <= capacity,
                length <= capacity,
                cut ==> chars@ + spaces(capacity - length) == self@.text(),
                !cut ==> chars@ + self@.text_from(i as int, length as int) == self@.text(),
            decreases capacity - i + if cut { 0int } else { 1int },
        {
            let ghost before = chars@;
            match &self.inner[i] {
                Some(cell) => {
                    if !cell.is_part {
                        let width: usize = if cell.is_wide {
                            2
                        } else {
                            1
                        };
                        if width > capacity - length {
                            cut = true;
                        } else {
                            let mut k: usize = 0;
                            while k < cell.glyph.len()
                                invariant
                                    k <= cell.glyph.len(),
                                    chars@ == before + cell.glyph@.take(k as int),
                                decreases cell.glyph.len() - k,
                            {
                                chars.push(cell.glyph[k]);
                                proof {
                                    assert(cell.glyph@.take(k + 1) =~= cell.glyph@.take(
                                        k as int,
                                    ).push(cell.glyph@[k as int]));
                                    assert(chars@ =~= before + cell.glyph@.take(k + 1));
                                }
                                k += 1;
                            }
                            proof {
                                assert(cell.glyph@.take(cell.glyph.len() as int) =~= cell.glyph@);
                                assert((before + cell.glyph@) + self@.text_from(
                                    i + 1,
                                    length + width,
                                ) =~= before + (cell.glyph@ + self@.text_from(
                                    i + 1,
                                    length + width,
                                )));
                            }
                            length += width;
                        }
                    }
                },
                None => {
                    if 1 > capacity - length {
                        cut = true;
                    } else {
                        chars.push(' ');
                        proof {
                            assert(chars@ + self@.text_from(i + 1, length + 1) =~= before + (
                            seq![' '] + self@.text_from(i + 1, length + 1)));
                        }
                        length += 1;
                    }
                },
            }
            if !cut {
                i += 1;
            }
        }
        let ghost body = chars@;
        let ghost rest = capacity - length;
        proof {
            assert(body + spaces(rest) == self@.text());
        }
        let mut n: usize = length;
        while n < capacity
            invariant
                length <= n <= capacity,
                chars@ == body + spaces(n - length),
            decreases capacity - n,
        {
            chars.push(' ');
            proof {
                assert(chars@ =~= body + spaces(n + 1 - length));
            }
            n += 1;
        }
        string_of(&chars)
    }

    /// The writes that print every cell from the origin.
    pub fn paint(&self) -> (out: Vec<Paint>)
        ensures
            out@ == self@.render_paint(),
    {
        render_cells(&self.inner)
    }

    /// The writes for the cells that differ from what the device shows.
    pub fn diff(&self) -> (out: Vec<Paint>)
        requires
            self.wf(),
        ensures
            out@ == self@.refresh_paint(),
    {
        refresh_cells(&self.inner, &self.front, self.window.0, self.window.1)
    }

    /// Records that the device now shows every cell.
    pub fn sync_front(&mut self)
        requires
            old(self).wf(),
        ensures
            final(self).wf(),
            final(self)@ == old(self)@.painted(),
    {
        self.front = copy_slots(&self.inner);
    }

    /// Paints the whole grid: returns the writes that print every cell from
    /// the origin, and records that the device now shows them.
    pub fn render(&mut self) -> (out: Vec<Paint>)
        requires
            old(self).wf(),
        ensures
            final(self).wf(),
            final(self)@ == old(self)@.painted(),
            out@ == old(self)@.render_paint(),
    {
        let out = self.paint();
        self.sync_front();
        out
    }

    /// Paints what changed since the last paint: returns the writes for the
    /// cells that differ from what the device shows, and records that the
    /// device now shows every cell.
    pub fn refresh(&mut self) -> (out: Vec<Paint>)
        requires
            old(self).wf(),
        ensures
            final(self).wf(),
            final(self)@ == old(self)@.painted(),
            out@ == old(self)@.refresh_paint(),
    {
        let out = self.diff();
        self.sync_front();
        out
    }
}

/// Cuts or pads `slots` with empty positions to length `n`.
fn fit_slots(slots: &mut Vec<Option<Cell>>, n: usize)
    ensures
        slots_view(final(slots)@) == fit(slots_view(old(slots)@), n as int),
{
    if n <= slots.len() {
        slots.truncate(n);
    } else {
        while slots.len() < n
            invariant
                old(slots)@.len() <= slots@.len() <= n,
                slots@.subrange(0, old(slots)@.len() as int) == old(slots)@,
                forall|j: int| old(slots)@.len() <= j < slots@.len() ==> slots@[j] is None,
            decreases n - slots@.len(),
        {
            let ghost before = slots@;
            slots.push(None);
            proof {
                assert(slots@.subrange(0, old(slots)@.len() as int) =~= before.subrange(
                    0,
                    old(slots)@.len() as int,
                ));
            }
        }
    }
    proof {
        let a = slots_view(slots@);
        let b = fit(slots_view(old(slots)@), n as int);
        assert(a.len() == b.len());
        assert forall|j: int| 0 <= j < a.len() implies a[j] == b[j] by {
            if j < old(slots)@.len() {
                if n > old(slots)@.len() {
                    assert(slots@[j] == slots@.subrange(0, old(slots)@.len() as int)[j]);
                }
            }
        }
        assert(a =~= b);
    }
}

} // verus!
