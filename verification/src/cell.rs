//! One position of the grid.

use crate::style::Styles;
use crate::text::copy_chars;
use vstd::prelude::*;

verus! {

/// A grapheme with its width class and style. A glyph that takes two columns
/// is stored as a leading cell (`is_wide`, not `is_part`) followed by a
/// trailing cell (`is_wide` and `is_part`, with an empty glyph).
#[derive(Clone, Debug)]
pub struct Cell {
    pub glyph: Vec<char>,
    pub is_wide: bool,
    pub is_part: bool,
    pub style: Styles,
}

/// What a [`Cell`] holds, as plain values.
pub struct CellView {
    pub glyph: Seq<char>,
    pub is_wide: bool,
    pub is_part: bool,
    pub style: Styles,
}

/// One grid position: a cell, or nothing.
pub type Slot = Option<CellView>;

impl View for Cell {
    type V = CellView;

    open spec fn view(&self) -> CellView {
        CellView {
            glyph: self.glyph@,
            is_wide: self.is_wide,
            is_part: self.is_part,
            style: self.style,
        }
    }
}

impl CellView {
    /// A cell of one column.
    pub open spec fn narrow(glyph: Seq<char>, style: Styles) -> CellView {
        CellView { glyph, is_wide: false, is_part: false, style }
    }

    /// The leading half of a glyph of two columns.
    pub open spec fn wide(glyph: Seq<char>, style: Styles) -> CellView {
        CellView { glyph, is_wide: true, is_part: false, style }
    }

    /// The trailing half of a glyph of two columns.
    pub open spec fn tail(style: Styles) -> CellView {
        CellView { glyph: Seq::empty(), is_wide: true, is_part: true, style }
    }
}

/// The view of one stored position.
pub open spec fn slot_view(slot: Option<Cell>) -> Slot {
    match slot {
        Some(cell) => Some(cell@),
        None => None,
    }
}

/// The views of a row-major array of positions.
pub open spec fn slots_view(slots: Seq<Option<Cell>>) -> Seq<Slot> {
    Seq::new(slots.len(), |i: int| slot_view(slots[i]))
}

impl Cell {
    pub fn narrow(glyph: Vec<char>, style: Styles) -> (r: Cell)
        ensures
            r@ == CellView::narrow(glyph@, style),
    {
        Cell { glyph, is_wide: false, is_part: false, style }
    }

    pub fn wide(glyph: Vec<char>, style: Styles) -> (r: Cell)
        ensures
            r@ == CellView::wide(glyph@, style),
    {
        Cell { glyph, is_wide: true, is_part: false, style }
    }

    pub fn tail(style: Styles) -> (r: Cell)
        ensures
            r@ == CellView::tail(style),
    {
        Cell { glyph: Vec::new(), is_wide: true, is_part: true, style }
    }

    /// A cell with the same contents.
    pub fn copy(&self) -> (r: Cell)
        ensures
            r@ == self@,
    {
        Cell {
            glyph: copy_chars(&self.glyph),
            is_wide: self.is_wide,
            is_part: self.is_part,
            style: self.style,
        }
    }
}

/// A copy of one stored position.
pub fn copy_slot(slot: &Option<Cell>) -> (r: Option<Cell>)
    ensures
        slot_view(r) == slot_view(*slot),
{
    match slot {
        Some(cell) => Some(cell.copy()),
        None => None,
    }
}

/// An array of `n` empty positions.
pub fn blank_slots(n: usize) -> (r: Vec<Option<Cell>>)
    ensures
        slots_view(r@) == Seq::new(n as nat, |i: int| None::<CellView>),
{
    let mut r: Vec<Option<Cell>> = Vec::new();
    let mut i: usize = 0;
    while i < n
        invariant
            i <= n,
            r@.len() == i,
            forall|j: int| 0 <= j < i ==> r@[j] is None,
        decreases n - i,
    {
        r.push(None);
        i += 1;
    }
    proof {
        assert(slots_view(r@) =~= Seq::new(n as nat, |i: int| None::<CellView>));
    }
    r
}

} // verus!
