//! The mathematical model of one screen: a row-major grid of cells with a
//! cursor, a marker and the settings that shape new content. Every operation
//! of the screen buffer is a function from one `Grid` to the next.

use crate::cell::{CellView, Slot};
use crate::paint::{diff_paint, full_paint, Paint};
use crate::style::{Clear, Style, Styles};
use crate::text::{display_width, spec_has_selector, spec_is_ascii};
use vstd::prelude::*;

verus! {

/// How a bare line feed moves the cursor.
#[derive(Clone, Copy, Debug, PartialEq, Eq, Structural)]
pub enum Platform {
    /// A line feed moves one row down and keeps the column.
    Ansi,
    /// A line feed moves to the first column of the next row.
    Console,
}

/// The largest width or height of a window.
pub const MAX_SIDE: i16 = 0x7fff;

/// The largest linear index that a pair of coordinates can name.
pub const MAX_INDEX: usize = 0x4000_0000;

/// The state of one screen.
pub struct Grid {
    /// Linear index of the cursor; equal to the capacity right after the
    /// last cell was written.
    pub cursor: int,
    /// Linear index saved for `jump`.
    pub marker: int,
    /// The cells, row by row.
    pub cells: Seq<Slot>,
    /// What the device showed after the last paint.
    pub front: Seq<Slot>,
    pub width: int,
    pub height: int,
    pub tab_size: int,
    /// The style given to new cells.
    pub style: Styles,
    /// The glyph that stands for a cluster of unknown width.
    pub placeholder: char,
    pub platform: Platform,
}

/// The absolute value of a coordinate or distance.
pub open spec fn magnitude(n: int) -> int {
    if n < 0 {
        -n
    } else {
        n
    }
}

/// `slots` cut or padded with empty positions to length `n`.
pub open spec fn fit(slots: Seq<Slot>, n: int) -> Seq<Slot> {
    Seq::new(
        n as nat,
        |i: int|
            if i < slots.len() {
                slots[i]
            } else {
                None
            },
    )
}

/// `n` empty positions.
pub open spec fn blanks(n: int) -> Seq<Slot> {
    Seq::new(n as nat, |i: int| None::<CellView>)
}

/// Whether `seg` is the single code point `c`.
pub open spec fn is_char(seg: Seq<char>, c: char) -> bool {
    seg.len() == 1 && seg[0] == c
}

/// Whether `seg` is a carriage return followed by a line feed.
pub open spec fn is_crlf(seg: Seq<char>) -> bool {
    seg.len() == 2 && seg[0] == '\r' && seg[1] == '\n'
}

impl Grid {
    /// The invariant of a screen: positive sides, as many cells in both
    /// buffers as the window has positions, the cursor at most one past the
    /// last cell, a positive tab size.
    pub open spec fn wf(self) -> bool {
        &&& 0 < self.width <= MAX_SIDE
        &&& 0 < self.height <= MAX_SIDE
        &&& self.cells.len() == self.width * self.height
        &&& self.front.len() == self.cells.len()
        &&& 0 <= self.cursor <= self.cells.len()
        &&& 0 <= self.marker <= MAX_INDEX
        &&& 0 < self.tab_size
    }

    /// A new screen: empty, cursor and marker at the origin, tab size 8,
    /// plain style, U+1F6A7 as placeholder.
    pub open spec fn new(w: int, h: int, platform: Platform) -> Grid {
        Grid {
            cursor: 0,
            marker: 0,
            cells: blanks(w * h),
            front: blanks(w * h),
            width: w,
            height: h,
            tab_size: 8,
            style: Styles::spec_plain(),
            placeholder: '\u{1F6A7}',
            platform,
        }
    }

    pub open spec fn capacity(self) -> int {
        self.cells.len() as int
    }

    /// The position at `i`, empty outside the grid.
    pub open spec fn slot(self, i: int) -> Slot {
        if 0 <= i < self.cells.len() {
            self.cells[i]
        } else {
            None
        }
    }

    /// Whether position `i` holds the trailing half of a wide glyph.
    pub open spec fn is_tail(self, i: int) -> bool {
        self.slot(i) matches Some(c) && c.is_part
    }

    /// Whether position `i` holds either half of a wide glyph.
    pub open spec fn is_wide(self, i: int) -> bool {
        self.slot(i) matches Some(c) && c.is_wide
    }

    pub open spec fn col(self) -> int {
        self.cursor % self.width
    }

    pub open spec fn row(self) -> int {
        self.cursor / self.width
    }

    /// The linear index of a pair of coordinates, each taken by its absolute
    /// value.
    pub open spec fn index_of(self, col: int, row: int) -> int {
        magnitude(row) * self.width + magnitude(col)
    }

    /// Where a cursor sent to `index` comes to rest: an index past the grid
    /// is taken back to the last cell, and a cursor on a trailing half moves
    /// one cell left.
    pub open spec fn settled(self, index: int) -> int {
        let i = if index < self.capacity() {
            index
        } else {
            self.capacity() - 1
        };
        if self.is_tail(i) && i > 0 {
            i - 1
        } else {
            i
        }
    }

    /// The cursor sent to `index`.
    pub open spec fn at(self, index: int) -> Grid {
        Grid { cursor: self.settled(index), ..self }
    }

    /// The cursor placed at `index` as it is, at most one past the last cell.
    pub open spec fn placed(self, index: int) -> Grid {
        Grid {
            cursor: if index < self.capacity() {
                index
            } else {
                self.capacity()
            },
            ..self
        }
    }

    pub open spec fn goto(self, col: int, row: int) -> Grid {
        self.at(self.index_of(col, row))
    }

    pub open spec fn left(self, n: int) -> Grid {
        let n = magnitude(n);
        let col = if n >= self.col() {
            0
        } else {
            self.col() - n
        };
        self.goto(col, self.row())
    }

    /// One more column is crossed when the cursor stands on a wide glyph.
    pub open spec fn right(self, n: int) -> Grid {
        let n = magnitude(n) + if self.is_wide(self.cursor) {
            1int
        } else {
            0int
        };
        let last = self.width - 1;
        let col = if self.col() + n >= last {
            last
        } else {
            self.col() + n
        };
        self.goto(col, self.row())
    }

    pub open spec fn up(self, n: int) -> Grid {
        let n = magnitude(n);
        let row = if n >= self.row() {
            0
        } else {
            self.row() - n
        };
        self.goto(self.col(), row)
    }

    pub open spec fn down(self, n: int) -> Grid {
        let n = magnitude(n);
        let last = self.height - 1;
        let row = if self.row() + n >= last {
            last
        } else {
            self.row() + n
        };
        self.goto(self.col(), row)
    }

    /// Cursor and marker change places; the new cursor comes to rest.
    pub open spec fn jump(self) -> Grid {
        Grid { cursor: self.settled(self.marker), marker: self.cursor, ..self }
    }

    pub open spec fn mark(self, col: int, row: int) -> Grid {
        Grid { marker: self.index_of(col, row), ..self }
    }

    /// Both buffers cut or padded to the new window, and the cursor brought
    /// to rest on a cell of it.
    pub open spec fn resized(self, w: int, h: int) -> Grid {
        Grid {
            width: w,
            height: h,
            cells: fit(self.cells, w * h),
            front: fit(self.front, w * h),
            ..self
        }.at(self.cursor)
    }

    pub open spec fn with_tab_size(self, n: int) -> Grid {
        Grid { tab_size: n, ..self }
    }

    pub open spec fn with_placeholder(self, ch: char) -> Grid {
        Grid { placeholder: ch, ..self }
    }

    pub open spec fn with_style(self, style: Style) -> Grid {
        Grid { style: self.style.spec_with(style), ..self }
    }

    pub open spec fn with_styles(self, fg: crate::style::Color, bg: crate::style::Color, fx: u32) -> Grid {
        Grid { style: Styles { fg, bg, fx }, ..self }
    }

    /// The glyph under the cursor: that of the leading half when the cursor
    /// stands on a trailing half, a space where there is no glyph.
    pub open spec fn getch(self) -> Seq<char> {
        match self.slot(self.cursor) {
            Some(c) => if c.is_part {
                match self.slot(self.cursor - 1) {
                    Some(lead) => lead.glyph,
                    None => seq![' '],
                }
            } else {
                c.glyph
            },
            None => seq![' '],
        }
    }

    /// The cells with position `i` taken out, the rest moved one to the left
    /// and an empty position added at the end.
    pub open spec fn without(self, i: int) -> Grid {
        Grid { cells: self.cells.remove(i).push(None), ..self }
    }

    /// The glyph under the cursor deleted: both halves of a wide one. On a
    /// trailing half the glyph starts one cell to the left, and the cursor
    /// moves there.
    pub open spec fn delch(self) -> Grid {
        let i = self.cursor;
        if i >= self.capacity() {
            self
        } else if self.is_tail(i) && i > 0 {
            Grid { cursor: i - 1, ..self.without(i - 1).without(i - 1) }
        } else if self.is_wide(i) && !self.is_tail(i) {
            self.without(i).without(i)
        } else {
            self.without(i)
        }
    }

    /// The index that new content is written to: the cursor, or the last
    /// cell when the cursor is past it.
    pub open spec fn target(self) -> int {
        if self.cursor >= self.capacity() {
            self.capacity() - 1
        } else {
            self.cursor
        }
    }

    /// Whether a glyph written at the cursor stays inside the grid: a wide
    /// glyph, and a narrow one that replaces half of a wide glyph, take the
    /// next cell too.
    pub open spec fn fits(self, wide: bool) -> bool {
        (wide || self.is_wide(self.target())) ==> self.target() + 1 < self.capacity()
    }

    /// One glyph written at the cursor in the active style. A wide glyph
    /// takes two cells. A narrow glyph that replaces half of a wide one
    /// leaves the next cell empty and the cursor behind it.
    pub open spec fn set_cell(self, glyph: Seq<char>, wide: bool) -> Grid {
        let i = self.target();
        if wide {
            Grid {
                cells: self.cells.update(i, Some(CellView::wide(glyph, self.style))).update(
                    i + 1,
                    Some(CellView::tail(self.style)),
                ),
                cursor: i + 2,
                ..self
            }
        } else if self.is_wide(i) {
            Grid {
                cells: self.cells.update(i, Some(CellView::narrow(glyph, self.style))).update(
                    i + 1,
                    None,
                ),
                cursor: i + 2,
                ..self
            }
        } else {
            Grid {
                cells: self.cells.update(i, Some(CellView::narrow(glyph, self.style))),
                cursor: i + 1,
                ..self
            }
        }
    }

    /// `set_cell` where the glyph fits; nothing where it does not.
    pub open spec fn put(self, glyph: Seq<char>, wide: bool) -> Grid {
        if self.fits(wide) {
            self.set_cell(glyph, wide)
        } else {
            self
        }
    }

    /// The cursor at the first column of the next row, or of the last row.
    pub open spec fn crlf(self) -> Grid {
        if self.height > self.row() + 1 {
            self.goto(0, self.row() + 1)
        } else {
            self.goto(0, self.height - 1)
        }
    }

    /// The cursor at the next tab stop, at most at the last column.
    pub open spec fn tab(self) -> Grid {
        let stop = (self.col() / self.tab_size + 1) * self.tab_size;
        let last = self.width - 1;
        self.goto(
            if stop > last {
                last
            } else {
                stop
            },
            self.row(),
        )
    }

    /// One cluster of ASCII code points applied to the screen.
    pub open spec fn set_ascii(self, seg: Seq<char>) -> Grid {
        if is_char(seg, '\x00') {
            self
        } else if is_char(seg, '\r') {
            self.goto(0, self.row())
        } else if is_char(seg, '\n') {
            match self.platform {
                Platform::Ansi => self.down(1),
                Platform::Console => self.crlf(),
            }
        } else if is_crlf(seg) {
            self.crlf()
        } else if is_char(seg, '\t') {
            self.tab()
        } else if is_char(seg, '\x1B') {
            self.put(seq!['^'], false)
        } else {
            self.put(seg, false)
        }
    }

    /// One grapheme cluster of display width `width` applied to the screen.
    pub open spec fn segment(self, seg: Seq<char>, width: int) -> Grid {
        if spec_is_ascii(seg) {
            self.set_ascii(seg)
        } else if width == 1 {
            self.put(seg, spec_has_selector(seg))
        } else if width == 2 {
            self.put(seg, true)
        } else {
            self.put(seq![self.placeholder], true)
        }
    }

    /// A list of grapheme clusters applied in order, each with the width
    /// that `display_width` gives it.
    pub open spec fn content(self, segs: Seq<Seq<char>>) -> Grid
        decreases segs.len(),
    {
        if segs.len() == 0 {
            self
        } else {
            self.content(segs.drop_last()).segment(
                segs.last(),
                display_width(segs.last()) as int,
            )
        }
    }

    /// The positions from `from` up to `to` emptied.
    pub open spec fn blank(self, from: int, to: int) -> Grid {
        Grid {
            cells: Seq::new(
                self.cells.len(),
                |i: int|
                    if from <= i < to {
                        None
                    } else {
                        self.cells[i]
                    },
            ),
            ..self
        }
    }

    pub open spec fn cleared(self, kind: Clear) -> Grid {
        match kind {
            Clear::All => Grid { cells: blanks(self.capacity()), cursor: 0, ..self },
            Clear::NewLn => self.blank(self.cursor, (self.row() + 1) * self.width),
            Clear::CurrentLn => self.blank(
                self.row() * self.width,
                (self.row() + 1) * self.width,
            ).goto(0, self.row()),
            Clear::CursorUp => self.blank(0, self.cursor),
            Clear::CursorDn => self.blank(self.cursor, self.capacity()),
        }
    }

    /// The screen after a paint: the device shows every cell.
    pub open spec fn painted(self) -> Grid {
        Grid { front: self.cells, ..self }
    }

    /// The writes of a full paint.
    pub open spec fn render_paint(self) -> Seq<Paint> {
        full_paint(self.cells, self.capacity())
    }

    /// The writes of a paint of what changed since the last one.
    pub open spec fn refresh_paint(self) -> Seq<Paint> {
        diff_paint(self.cells, self.front, self.capacity(), self.width)
    }

    /// The text of the cells from position `i` on, when `used` columns are
    /// already taken: the glyphs in order, a space for each empty position,
    /// nothing for a trailing half, cut where the columns run out and padded
    /// with spaces to the capacity.
    pub open spec fn text_from(self, i: int, used: int) -> Seq<char>
        decreases self.cells.len() - i,
    {
        if i < 0 || i >= self.cells.len() {
            spaces(self.capacity() - used)
        } else {
            match self.cells[i] {
                Some(c) => if c.is_part {
                    self.text_from(i + 1, used)
                } else {
                    let w = if c.is_wide {
                        2int
                    } else {
                        1int
                    };
                    if used + w > self.capacity() {
                        spaces(self.capacity() - used)
                    } else {
                        c.glyph + self.text_from(i + 1, used + w)
                    }
                },
                None => if used + 1 > self.capacity() {
                    spaces(self.capacity() - used)
                } else {
                    seq![' '] + self.text_from(i + 1, used + 1)
                },
            }
        }
    }

    /// The text of the whole grid.
    pub open spec fn text(self) -> Seq<char> {
        self.text_from(0, 0)
    }
}

/// `n` spaces; none when `n` is negative.
pub open spec fn spaces(n: int) -> Seq<char> {
    Seq::new(
        if n < 0 {
            0nat
        } else {
            n as nat
        },
        |i: int| ' ',
    )
}

/// A window of positive sides has at least one position and fewer than
/// `MAX_INDEX`.
pub proof fn lemma_window(w: int, h: int)
    requires
        0 < w <= MAX_SIDE,
        0 < h <= MAX_SIDE,
    ensures
        0 < w * h < MAX_INDEX,
{
    assert(0 < w * h <= 0x7fff * 0x7fff) by (nonlinear_arith)
        requires
            0 < w <= 0x7fff,
            0 < h <= 0x7fff,
    ;
}

/// Column and row of an index at most one past the last position.
pub proof fn lemma_coord(index: int, w: int, h: int)
    requires
        0 < w,
        0 < h,
        0 <= index <= w * h,
    ensures
        0 <= index % w < w,
        0 <= index / w <= h,
        index < w * h ==> index / w < h,
        index == (index / w) * w + index % w,
{
    assert(0 <= index % w < w && index == (index / w) * w + index % w && 0 <= index / w) by (nonlinear_arith)
        requires
            0 < w,
            0 <= index,
    ;
    let q = index / w;
    assert(q <= h && (index < w * h ==> q < h)) by (nonlinear_arith)
        requires
            0 < w,
            0 < h,
            0 <= index <= w * h,
            index == q * w + index % w,
            0 <= index % w < w,
    ;
}

/// A cursor that was sent anywhere rests on a cell of the window.
pub proof fn lemma_at_rest(g: Grid, index: int)
    requires
        g.wf(),
        0 <= index,
    ensures
        0 <= g.at(index).cursor < g.capacity(),
        0 <= g.at(index).col() < g.width,
        0 <= g.at(index).row() < g.height,
{
    lemma_window(g.width, g.height);
    lemma_coord(g.at(index).cursor, g.width, g.height);
}

} // verus!
