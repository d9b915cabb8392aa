//! Painting: the writes that bring the device in line with the grid, either
//! all of it or only the cells that changed since the last paint.

use crate::grid::lemma_coord;
use crate::cell::{copy_slot, slot_view, slots_view, Cell, Slot};
use crate::style::{Color, Styles, FX_RESET};
use vstd::prelude::*;

verus! {

/// One write to the device.
#[derive(Clone, Copy, Debug, PartialEq, Eq, Structural)]
pub enum Paint {
    /// Move the cursor to a column and a row.
    Goto(i16, i16),
    /// Drop every color and effect.
    Reset,
    Fg(Color),
    Bg(Color),
    Fx(u32),
    /// Print one code point.
    Put(char),
}

/// The write that prints one code point.
pub open spec fn put(c: char) -> Paint {
    Paint::Put(c)
}

/// The writes that print a glyph.
pub open spec fn puts(glyph: Seq<char>) -> Seq<Paint> {
    Seq::new(glyph.len(), |i: int| put(glyph[i]))
}

/// The writes that change the colors from `from` to `to`.
pub open spec fn recolor(from: Styles, to: Styles) -> Seq<Paint> {
    (if from.fg != to.fg {
        seq![Paint::Fg(to.fg)]
    } else {
        Seq::<Paint>::empty()
    }) + (if from.bg != to.bg {
        seq![Paint::Bg(to.bg)]
    } else {
        Seq::<Paint>::empty()
    })
}

/// The fewest writes that change the style from `from` to `to`: none when
/// they are equal, a reset when `to` is plain, else one write for each
/// component that differs.
pub open spec fn restyle(from: Styles, to: Styles) -> Seq<Paint> {
    if from == to {
        Seq::<Paint>::empty()
    } else if to == Styles::spec_plain() {
        seq![Paint::Reset]
    } else {
        recolor(from, to) + reeffect(from, to)
    }
}

/// The writes of one position in a full paint, when the device is in style
/// `style`: nothing for a trailing half, the glyph in its style for a cell, a
/// space in plain style for an empty position.
pub open spec fn slot_paint(slot: Slot, style: Styles) -> Seq<Paint> {
    match slot {
        Some(c) => if c.is_part {
            Seq::<Paint>::empty()
        } else {
            restyle(style, c.style) + puts(c.glyph)
        },
        None => if style == Styles::spec_plain() {
            seq![Paint::Put(' ')]
        } else {
            seq![Paint::Reset, Paint::Put(' ')]
        },
    }
}

/// The style of the device after one position was painted.
pub open spec fn slot_style(slot: Slot, style: Styles) -> Styles {
    match slot {
        Some(c) => if c.is_part {
            style
        } else {
            c.style
        },
        None => Styles::spec_plain(),
    }
}

/// The style of the device after the first `n` positions were painted,
/// starting from plain.
pub open spec fn style_after(cells: Seq<Slot>, n: int) -> Styles
    decreases n,
{
    if n <= 0 {
        Styles::spec_plain()
    } else {
        slot_style(cells[n - 1], style_after(cells, n - 1))
    }
}

/// The writes of a full paint of the first `n` positions.
pub open spec fn full_paint(cells: Seq<Slot>, n: int) -> Seq<Paint>
    decreases n,
{
    if n <= 0 {
        Seq::<Paint>::empty()
    } else {
        full_paint(cells, n - 1) + slot_paint(cells[n - 1], style_after(cells, n - 1))
    }
}

/// Whether position `cell` must be written again over `shown`: a cell whose
/// glyph or style changed, a cell where nothing was shown, or an empty
/// position where a cell was shown. A trailing half is never written.
pub open spec fn differs(cell: Slot, shown: Slot) -> bool {
    match cell {
        Some(c) => !c.is_part && match shown {
            Some(f) => !(f.style == c.style && f.glyph == c.glyph),
            None => true,
        },
        None => shown is Some,
    }
}

/// The cursor move before a write at index `i`: none when the last write
/// was at `i - 1`.
pub open spec fn approach(prev: Option<int>, i: int, width: int) -> Seq<Paint> {
    if prev == Some(i - 1) {
        Seq::<Paint>::empty()
    } else {
        seq![Paint::Goto((i % width) as i16, (i / width) as i16)]
    }
}

/// The write that changes the effects from `from` to `to`, if they differ.
pub open spec fn reeffect(from: Styles, to: Styles) -> Seq<Paint> {
    if from.fx != to.fx {
        seq![Paint::Fx(to.fx)]
    } else {
        Seq::<Paint>::empty()
    }
}

/// The writes that replace `shown` by `cell` once the cursor is there. Over
/// a cell that was shown, the style changes by as little as `restyle` asks;
/// where nothing was shown, both colors are set, and the effects where they
/// are not the plain ones. A write that is not in plain style ends with a
/// reset.
pub open spec fn patch(cell: Slot, shown: Slot) -> Seq<Paint> {
    match cell {
        Some(c) => match shown {
            Some(f) => restyle(f.style, c.style) + puts(c.glyph) + seq![Paint::Reset],
            None => if c.style == Styles::spec_plain() {
                puts(c.glyph)
            } else {
                seq![Paint::Fg(c.style.fg), Paint::Bg(c.style.bg)] + reeffect(
                    Styles::spec_plain(),
                    c.style,
                ) + puts(c.glyph) + seq![Paint::Reset]
            },
        },
        None => seq![Paint::Reset, Paint::Put(' ')],
    }
}

/// The index of the last write among the first `n` positions, if any.
pub open spec fn last_written(cells: Seq<Slot>, front: Seq<Slot>, n: int) -> Option<int>
    decreases n,
{
    if n <= 0 {
        None
    } else if differs(cells[n - 1], front[n - 1]) {
        Some(n - 1)
    } else {
        last_written(cells, front, n - 1)
    }
}

/// The writes that bring the first `n` positions of `front` in line with
/// `cells`: for each position that differs, a cursor move unless the
/// position before it was written too, then its patch.
pub open spec fn diff_paint(cells: Seq<Slot>, front: Seq<Slot>, n: int, width: int) -> Seq<Paint>
    decreases n,
{
    if n <= 0 {
        Seq::<Paint>::empty()
    } else if differs(cells[n - 1], front[n - 1]) {
        diff_paint(cells, front, n - 1, width) + approach(
            last_written(cells, front, n - 1),
            n - 1,
            width,
        ) + patch(cells[n - 1], front[n - 1])
    } else {
        diff_paint(cells, front, n - 1, width)
    }
}

/// Whether two glyphs hold the same code points.
pub fn same_chars(a: &Vec<char>, b: &Vec<char>) -> (r: bool)
    ensures
        r == (a@ == b@),
{
    if a.len() != b.len() {
        return false;
    }
    let mut i: usize = 0;
    while i < a.len()
        invariant
            i <= a.len(),
            a.len() == b.len(),
            forall|j: int| 0 <= j < i ==> a@[j] == b@[j],
        decreases a.len() - i,
    {
        if a[i] != b[i] {
            return false;
        }
        i += 1;
    }
    proof {
        assert(a@ =~= b@);
    }
    true
}

/// Appends the writes that print `glyph`.
fn push_glyph(out: &mut Vec<Paint>, glyph: &Vec<char>)
    ensures
        final(out)@ == old(out)@ + puts(glyph@),
{
    let mut k: usize = 0;
    proof {
        assert(out@ =~= old(out)@ + puts(glyph@.take(0)));
    }
    while k < glyph.len()
        invariant
            k <= glyph.len(),
            out@ == old(out)@ + puts(glyph@.take(k as int)),
        decreases glyph.len() - k,
    {
        let ghost before = out@;
        out.push(Paint::Put(glyph[k]));
        proof {
            let a = glyph@.take(k + 1);
            let b = glyph@.take(k as int);
            assert(puts(a) =~= puts(b).push(put(glyph@[k as int])));
            assert(out@ =~= old(out)@ + puts(a));
        }
        k += 1;
    }
    proof {
        assert(glyph@.take(glyph.len() as int) =~= glyph@);
    }
}

/// Appends the writes that change the colors from `from` to `to`.
fn push_recolor(out: &mut Vec<Paint>, from: Styles, to: Styles)
    ensures
        final(out)@ == old(out)@ + recolor(from, to),
{
    if from.fg != to.fg {
        out.push(Paint::Fg(to.fg));
    }
    if from.bg != to.bg {
        out.push(Paint::Bg(to.bg));
    }
    proof {
        assert(out@ =~= old(out)@ + recolor(from, to));
    }
}

/// Appends the writes that change the style from `from` to `to`.
fn push_restyle(out: &mut Vec<Paint>, from: Styles, to: Styles)
    ensures
        final(out)@ == old(out)@ + restyle(from, to),
{
    if from == to {
    } else if to.is_plain() {
        out.push(Paint::Reset);
    } else {
        push_recolor(out, from, to);
        if from.fx != to.fx {
            out.push(Paint::Fx(to.fx));
        }
    }
    proof {
        assert(out@ =~= old(out)@ + restyle(from, to));
    }
}

/// Appends the writes of one position in a full paint, and returns the
/// style of the device after them.
fn push_slot(out: &mut Vec<Paint>, cell: &Option<Cell>, style: Styles) -> (next: Styles)
    ensures
        final(out)@ == old(out)@ + slot_paint(slot_view(*cell), style),
        next == slot_style(slot_view(*cell), style),
{
    match cell {
        Some(c) => {
            if !c.is_part {
                push_restyle(out, style, c.style);
                push_glyph(out, &c.glyph);
                proof {
                    assert(out@ =~= old(out)@ + slot_paint(slot_view(*cell), style));
                }
                c.style
            } else {
                proof {
                    assert(out@ =~= old(out)@ + slot_paint(slot_view(*cell), style));
                }
                style
            }
        },
        None => {
            if !style.is_plain() {
                out.push(Paint::Reset);
            }
            out.push(Paint::Put(' '));
            proof {
                assert(out@ =~= old(out)@ + slot_paint(slot_view(*cell), style));
            }
            Styles::plain()
        },
    }
}

/// The writes that paint every position of `cells` from the origin, with as
/// few style changes as the order of the cells allows.
pub fn render_cells(cells: &Vec<Option<Cell>>) -> (out: Vec<Paint>)
    ensures
        out@ == full_paint(slots_view(cells@), cells@.len() as int),
{
    let ghost model = slots_view(cells@);
    let mut out: Vec<Paint> = Vec::new();
    let mut style = Styles::plain();
    let mut i: usize = 0;
    while i < cells.len()
        invariant
            i <= cells.len(),
            model == slots_view(cells@),
            out@ == full_paint(model, i as int),
            style == style_after(model, i as int),
        decreases cells.len() - i,
    {
        style = push_slot(&mut out, &cells[i], style);
        i += 1;
    }
    out
}

/// Whether a position must be written again over what the device shows.
fn slot_differs(cell: &Option<Cell>, shown: &Option<Cell>) -> (r: bool)
    ensures
        r == differs(slot_view(*cell), slot_view(*shown)),
{
    match cell {
        Some(c) => !c.is_part && match shown {
            Some(f) => !(f.style == c.style && same_chars(&f.glyph, &c.glyph)),
            None => true,
        },
        None => shown.is_some(),
    }
}

/// Appends the writes that replace `shown` by `cell`.
fn push_patch(out: &mut Vec<Paint>, cell: &Option<Cell>, shown: &Option<Cell>)
    ensures
        final(out)@ == old(out)@ + patch(slot_view(*cell), slot_view(*shown)),
{
    match cell {
        Some(c) => match shown {
            Some(f) => {
                push_restyle(out, f.style, c.style);
                push_glyph(out, &c.glyph);
                out.push(Paint::Reset);
            },
            None => {
                if c.style.is_plain() {
                    push_glyph(out, &c.glyph);
                } else {
                    out.push(Paint::Fg(c.style.fg));
                    out.push(Paint::Bg(c.style.bg));
                    if c.style.fx != FX_RESET {
                        out.push(Paint::Fx(c.style.fx));
                    }
                    push_glyph(out, &c.glyph);
                    out.push(Paint::Reset);
                }
            },
        },
        None => {
            out.push(Paint::Reset);
            out.push(Paint::Put(' '));
        },
    }
    proof {
        assert(out@ =~= old(out)@ + patch(slot_view(*cell), slot_view(*shown)));
    }
}

/// The writes that bring a device showing `front` in line with `cells`,
/// touching only the positions that differ.
pub fn refresh_cells(cells: &Vec<Option<Cell>>, front: &Vec<Option<Cell>>, w: i16, h: i16) -> (out:
    Vec<Paint>)
    requires
        w > 0,
        h > 0,
        cells@.len() == w * h,
        front@.len() == cells@.len(),
    ensures
        out@ == diff_paint(
            slots_view(cells@),
            slots_view(front@),
            cells@.len() as int,
            w as int,
        ),
{
    let ghost model = slots_view(cells@);
    let ghost shown = slots_view(front@);
    let width = w as usize;
    let mut out: Vec<Paint> = Vec::new();
    let mut prev: Option<usize> = None;
    let mut i: usize = 0;
    while i < cells.len()
        invariant
            i <= cells.len(),
            w > 0,
            h > 0,
            width == w,
            cells@.len() == w * h,
            front@.len() == cells@.len(),
            model == slots_view(cells@),
            shown == slots_view(front@),
            out@ == diff_paint(model, shown, i as int, w as int),
            match prev {
                Some(p) => last_written(model, shown, i as int) == Some(p as int),
                None => last_written(model, shown, i as int) is None,
            },
        decreases cells.len() - i,
    {
        if slot_differs(&cells[i], &front[i]) {
            let ghost before = out@;
            let ghost last = last_written(model, shown, i as int);
            proof {
                lemma_coord(i as int, w as int, h as int);
            }
            let near = match prev {
                Some(p) => i > 0 && p == i - 1,
                None => false,
            };
            if !near {
                out.push(Paint::Goto((i % width) as i16, (i / width) as i16));
            }
            proof {
                assert(out@ =~= before + approach(last, i as int, w as int));
            }
            push_patch(&mut out, &cells[i], &front[i]);
            prev = Some(i);
        }
        i += 1;
    }
    out
}

/// A copy of every position of `cells`.
pub fn copy_slots(cells: &Vec<Option<Cell>>) -> (r: Vec<Option<Cell>>)
    ensures
        slots_view(r@) == slots_view(cells@),
{
    let mut r: Vec<Option<Cell>> = Vec::new();
    let mut i: usize = 0;
    while i < cells.len()
        invariant
            i <= cells.len(),
            r@.len() == i,
            forall|j: int| 0 <= j < i ==> slot_view(r@[j]) == slot_view(cells@[j]),
        decreases cells.len() - i,
    {
        r.push(copy_slot(&cells[i]));
        i += 1;
    }
    proof {
        assert(slots_view(r@) =~= slots_view(cells@));
    }
    r
}

} // verus!
