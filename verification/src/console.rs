//! Painting through a console API that takes a buffer of character records
//! and a rectangle: the record of each cell, which records changed, and the
//! smallest rectangle that holds them.

use crate::cell::{slot_view, Cell, Slot};
use crate::grid::lemma_coord;
use vstd::prelude::*;

verus! {

/// One character of the console's screen buffer: a UTF-16 code unit and an
/// attribute word.
#[derive(Clone, Copy, Debug, PartialEq, Eq, Structural)]
pub struct CharInfo {
    pub ch: u16,
    pub attr: u16,
}

/// A pair of a column and a row, or of a width and a height.
#[derive(Clone, Copy, Debug, PartialEq, Eq, Structural)]
pub struct Coord {
    pub x: i16,
    pub y: i16,
}

/// A rectangle of the window, by its first and last column and row.
#[derive(Clone, Copy, Debug, PartialEq, Eq, Structural)]
pub struct Rect {
    pub left: i16,
    pub top: i16,
    pub right: i16,
    pub bottom: i16,
}

/// One call that copies records to the device: the size of the buffer that
/// is read, the position in it where reading starts, and the rectangle of
/// the window that is written.
#[derive(Clone, Copy, Debug, PartialEq, Eq, Structural)]
pub struct Blit {
    pub size: Coord,
    pub offset: Coord,
    pub rect: Rect,
}

/// The code unit that stands for a code point: its value cut to 16 bits.
pub open spec fn unit_of(c: char) -> u16 {
    ((c as u32) % 0x1_0000) as u16
}

/// The record of one position, when the attribute word of its style is
/// `attr` and that of the plain style `reset`: the first code point of the
/// glyph, or a space where there is none, with the attribute word of the
/// cell; a space with the plain attribute word for an empty position.
pub open spec fn record_of(slot: Slot, attr: u16, reset: u16) -> CharInfo {
    match slot {
        Some(c) => CharInfo {
            ch: if c.glyph.len() > 0 {
                unit_of(c.glyph[0])
            } else {
                0x20u16
            },
            attr,
        },
        None => CharInfo { ch: 0x20u16, attr: reset },
    }
}

/// The records of every position of `cells`. `attrs` holds the attribute
/// word of each cell's style, as the encoder of the console gives it.
pub fn records(cells: &Vec<Option<Cell>>, attrs: &Vec<u16>, reset: u16) -> (r: Vec<CharInfo>)
    requires
        attrs@.len() == cells@.len(),
    ensures
        r@.len() == cells@.len(),
        forall|i: int|
            0 <= i < r@.len() ==> r@[i] == record_of(slot_view(cells@[i]), attrs@[i], reset),
{
    let mut r: Vec<CharInfo> = Vec::new();
    let mut i: usize = 0;
    while i < cells.len()
        invariant
            i <= cells@.len(),
            attrs@.len() == cells@.len(),
            r@.len() == i,
            forall|j: int|
                0 <= j < i ==> r@[j] == record_of(slot_view(cells@[j]), attrs@[j], reset),
        decreases cells@.len() - i,
    {
        let record = match &cells[i] {
            Some(c) => {
                let ch: u16 = if c.glyph.len() > 0 {
                    ((c.glyph[0] as u32) % 0x1_0000) as u16
                } else {
                    0x20
                };
                CharInfo { ch, attr: attrs[i] }
            },
            None => CharInfo { ch: 0x20, attr: reset },
        };
        r.push(record);
        i += 1;
    }
    r
}

/// Whether the record at `i` has to be written again.
pub open spec fn stale(target: Seq<CharInfo>, front: Seq<CharInfo>, i: int) -> bool {
    0 <= i < target.len() && target[i] != front[i]
}

/// Whether `rect` holds every record that changed.
pub open spec fn encloses(target: Seq<CharInfo>, front: Seq<CharInfo>, w: int, rect: Rect) -> bool {
    forall|i: int| #[trigger]
        stale(target, front, i) ==> rect.left <= i % w <= rect.right && rect.top <= i / w
            <= rect.bottom
}

/// Whether a changed record lies on each side of `rect`, so that no smaller
/// rectangle holds them all.
pub open spec fn tight(target: Seq<CharInfo>, front: Seq<CharInfo>, w: int, rect: Rect) -> bool {
    &&& exists|i: int| #[trigger] stale(target, front, i) && i % w == rect.left
    &&& exists|i: int| #[trigger] stale(target, front, i) && i % w == rect.right
    &&& exists|i: int| #[trigger] stale(target, front, i) && i / w == rect.top
    &&& exists|i: int| #[trigger] stale(target, front, i) && i / w == rect.bottom
}

/// A full paint: every record of `target` goes to `front`, and one call
/// copies the whole buffer to the whole window.
pub fn render_records(target: &Vec<CharInfo>, front: &mut Vec<CharInfo>, w: i16, h: i16) -> (blit:
    Blit)
    requires
        w > 0,
        h > 0,
        target@.len() == w * h,
        old(front)@.len() == target@.len(),
    ensures
        final(front)@ == target@,
        blit == (Blit {
            size: Coord { x: w, y: h },
            offset: Coord { x: 0, y: 0 },
            rect: Rect { left: 0, top: 0, right: w, bottom: h },
        }),
{
    let mut i: usize = 0;
    while i < target.len()
        invariant
            i <= target@.len(),
            front@.len() == target@.len(),
            forall|j: int| 0 <= j < i ==> front@[j] == target@[j],
        decreases target@.len() - i,
    {
        front.set(i, target[i]);
        i += 1;
    }
    proof {
        assert(front@ =~= target@);
    }
    Blit { size: Coord { x: w, y: h }, offset: Coord { x: 0, y: 0 }, rect: Rect { left: 0, top: 0, right: w, bottom: h } }
}

/// A paint of what changed: every record of `target` goes to `front`, and
/// one call copies the smallest rectangle that holds the records that
/// differed. Nothing is copied when none did.
pub fn refresh_records(target: &Vec<CharInfo>, front: &mut Vec<CharInfo>, w: i16, h: i16) -> (blit:
    Option<Blit>)
    requires
        w > 0,
        h > 0,
        target@.len() == w * h,
        old(front)@.len() == target@.len(),
    ensures
        final(front)@ == target@,
        blit is None <==> target@ == old(front)@,
        blit matches Some(b) ==> {
            &&& encloses(target@, old(front)@, w as int, b.rect)
            &&& tight(target@, old(front)@, w as int, b.rect)
            &&& 0 <= b.rect.left <= b.rect.right < w
            &&& 0 <= b.rect.top <= b.rect.bottom < h
            &&& b.size == (Coord { x: w, y: (b.rect.bottom + 1) as i16 })
            &&& b.offset == (Coord { x: b.rect.left, y: b.rect.top })
        },
{
    let ghost before = front@;
    let width = w as usize;
    let mut found = false;
    let mut rect = Rect { left: 0, top: 0, right: 0, bottom: 0 };
    let ghost mut at_left: int = 0;
    let ghost mut at_right: int = 0;
    let ghost mut at_top: int = 0;
    let ghost mut at_bottom: int = 0;
    let mut i: usize = 0;
    while i < target.len()
        invariant
            w > 0,
            h > 0,
            width == w,
            target@.len() == w * h,
            before.len() == target@.len(),
            front@.len() == target@.len(),
            i <= target@.len(),
            forall|j: int| 0 <= j < i ==> front@[j] == target@[j],
            forall|j: int| i <= j < front@.len() ==> front@[j] == before[j],
            !found ==> forall|j: int| 0 <= j < i ==> target@[j] == before[j],
            found ==> {
                &&& forall|j: int| #[trigger]
                    stale(target@, before, j) && j < i ==> rect.left <= j % (w as int)
                        <= rect.right && rect.top <= j / (w as int) <= rect.bottom
                &&& stale(target@, before, at_left) && at_left % (w as int) == rect.left
                &&& stale(target@, before, at_right) && at_right % (w as int) == rect.right
                &&& stale(target@, before, at_top) && at_top / (w as int) == rect.top
                &&& stale(target@, before, at_bottom) && at_bottom / (w as int) == rect.bottom
                &&& 0 <= rect.left <= rect.right < w
                &&& 0 <= rect.top <= rect.bottom < h
            },
        decreases target@.len() - i,
    {
        proof {
            lemma_coord(i as int, w as int, h as int);
        }
        let t = target[i];
        let f = front[i];
        if t.ch != f.ch || t.attr != f.attr {
            let col = (i % width) as i16;
            let row = (i / width) as i16;
            if !found {
                found = true;
                rect = Rect { left: col, top: row, right: col, bottom: row };
                proof {
                    at_left = i as int;
                    at_right = i as int;
                    at_top = i as int;
                    at_bottom = i as int;
                }
            }
            if col < rect.left {
                rect.left = col;
                proof {
                    at_left = i as int;
                }
            }
            if col > rect.right {
                rect.right = col;
                proof {
                    at_right = i as int;
                }
            }
            if row < rect.top {
                rect.top = row;
                proof {
                    at_top = i as int;
                }
            }
            if row > rect.bottom {
                rect.bottom = row;
                proof {
                    at_bottom = i as int;
                }
            }
            front.set(i, t);
        }
        i += 1;
    }
    proof {
        assert(front@ =~= target@);
        if !found {
            assert(target@ =~= before);
        } else {
            assert(target@[at_left] != before[at_left]);
        }
    }
    if found {
        Some(
            Blit {
                size: Coord { x: w, y: rect.bottom + 1 },
                offset: Coord { x: rect.left, y: rect.top },
                rect,
            },
        )
    } else {
        None
    }
}

} // verus!
