//! The calls that the dispatcher makes on the terminal device.

use crate::paint::Paint;
use crate::style::{Clear, Color};
use vstd::prelude::*;

verus! {

/// One call on the terminal device.
#[derive(Debug)]
pub enum DeviceOp {
    Goto(i16, i16),
    Up(i16),
    Down(i16),
    Left(i16),
    Right(i16),
    Clear(Clear),
    Resize(i16, i16),
    /// Write text without flushing.
    Prints(String),
    /// Write text and flush.
    Printf(String),
    /// Write a run of paint in one piece, without flushing.
    Paint(Vec<Paint>),
    Flush,
    SetFx(u32),
    SetFg(Color),
    SetBg(Color),
    SetStyles(Color, Color, u32),
    ResetStyles,
    HideCursor,
    ShowCursor,
    EnableMouse,
    DisableMouse,
    Raw,
    Cook,
    EnableAlt,
    DisableAlt,
    /// Ask the device to report the cursor position on its input.
    QueryPos,
}

/// A [`DeviceOp`] as plain values.
pub enum DeviceOpView {
    Goto(i16, i16),
    Up(i16),
    Down(i16),
    Left(i16),
    Right(i16),
    Clear(Clear),
    Resize(i16, i16),
    Prints(Seq<char>),
    Printf(Seq<char>),
    Paint(Seq<Paint>),
    Flush,
    SetFx(u32),
    SetFg(Color),
    SetBg(Color),
    SetStyles(Color, Color, u32),
    ResetStyles,
    HideCursor,
    ShowCursor,
    EnableMouse,
    DisableMouse,
    Raw,
    Cook,
    EnableAlt,
    DisableAlt,
    QueryPos,
}

impl View for DeviceOp {
    type V = DeviceOpView;

    open spec fn view(&self) -> DeviceOpView {
        match *self {
            DeviceOp::Goto(c, r) => DeviceOpView::Goto(c, r),
            DeviceOp::Up(n) => DeviceOpView::Up(n),
            DeviceOp::Down(n) => DeviceOpView::Down(n),
            DeviceOp::Left(n) => DeviceOpView::Left(n),
            DeviceOp::Right(n) => DeviceOpView::Right(n),
            DeviceOp::Clear(c) => DeviceOpView::Clear(c),
            DeviceOp::Resize(w, h) => DeviceOpView::Resize(w, h),
            DeviceOp::Prints(s) => DeviceOpView::Prints(s@),
            DeviceOp::Printf(s) => DeviceOpView::Printf(s@),
            DeviceOp::Paint(p) => DeviceOpView::Paint(p@),
            DeviceOp::Flush => DeviceOpView::Flush,
            DeviceOp::SetFx(f) => DeviceOpView::SetFx(f),
            DeviceOp::SetFg(c) => DeviceOpView::SetFg(c),
            DeviceOp::SetBg(c) => DeviceOpView::SetBg(c),
            DeviceOp::SetStyles(f, b, x) => DeviceOpView::SetStyles(f, b, x),
            DeviceOp::ResetStyles => DeviceOpView::ResetStyles,
            DeviceOp::HideCursor => DeviceOpView::HideCursor,
            DeviceOp::ShowCursor => DeviceOpView::ShowCursor,
            DeviceOp::EnableMouse => DeviceOpView::EnableMouse,
            DeviceOp::DisableMouse => DeviceOpView::DisableMouse,
            DeviceOp::Raw => DeviceOpView::Raw,
            DeviceOp::Cook => DeviceOpView::Cook,
            DeviceOp::EnableAlt => DeviceOpView::EnableAlt,
            DeviceOp::DisableAlt => DeviceOpView::DisableAlt,
            DeviceOp::QueryPos => DeviceOpView::QueryPos,
        }
    }
}

/// The views of a list of device calls.
pub open spec fn ops_view(ops: Seq<DeviceOp>) -> Seq<DeviceOpView> {
    Seq::new(ops.len(), |i: int| ops[i]@)
}

/// Appends one call to a list.
pub fn push_op(ops: &mut Vec<DeviceOp>, op: DeviceOp)
    ensures
        ops_view(final(ops)@) == ops_view(old(ops)@).push(op@),
{
    ops.push(op);
    proof {
        assert(ops_view(ops@) =~= ops_view(old(ops)@).push(op@));
    }
}

} // verus!
