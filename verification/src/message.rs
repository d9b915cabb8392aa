//! What travels between the handles and the dispatcher.

use crate::event::InputEvent;
use crate::style::{Clear, Color};
use vstd::prelude::*;

verus! {

/// What a handle asked for, as the dispatcher answers it.
#[derive(Clone, Debug)]
pub enum Reply {
    Size(i16, i16),
    Coord(i16, i16),
    Pos(i16, i16),
    GetCh(String),
    Screen(usize),
    IsRaw(bool),
    Empty,
}

/// A [`Reply`] as plain values.
pub enum ReplyView {
    Size(i16, i16),
    Coord(i16, i16),
    Pos(i16, i16),
    GetCh(Seq<char>),
    Screen(usize),
    IsRaw(bool),
    Empty,
}

impl View for Reply {
    type V = ReplyView;

    open spec fn view(&self) -> ReplyView {
        match *self {
            Reply::Size(w, h) => ReplyView::Size(w, h),
            Reply::Coord(c, r) => ReplyView::Coord(c, r),
            Reply::Pos(c, r) => ReplyView::Pos(c, r),
            Reply::GetCh(s) => ReplyView::GetCh(s@),
            Reply::Screen(id) => ReplyView::Screen(id),
            Reply::IsRaw(b) => ReplyView::IsRaw(b),
            Reply::Empty => ReplyView::Empty,
        }
    }
}

/// What a handle receives.
#[derive(Clone, Debug)]
pub enum Msg {
    Received(InputEvent),
    Response(Reply),
    Unsupported,
}

/// A change to the terminal and to its model.
#[derive(Debug)]
pub enum Action {
    Goto(i16, i16),
    Up(i16),
    Down(i16),
    Left(i16),
    Right(i16),
    Clear(Clear),
    Prints(String),
    Printf(String),
    SetContent(String, i16, i16),
    Flush,
    Render,
    Refresh,
    Resize(i16, i16),
    SetFx(u32),
    SetFg(Color),
    SetBg(Color),
    SetStyles(Color, Color, u32),
    ResetStyles,
    HideCursor,
    ShowCursor,
    EnableMouse,
    DisableMouse,
    Raw,
    Cook,
    NewScreen,
    SwitchTo(usize),
    Resized,
    SyncMarker(i16, i16),
    Jump,
    SyncTabSize(usize),
}

/// A question about the model or the device, with the id of the emitter
/// that asks.
#[derive(Clone, Copy, Debug, PartialEq, Eq, Structural)]
pub enum Query {
    Size(usize),
    Coord(usize),
    Pos(usize),
    GetCh(usize),
    Screen(usize),
    IsRaw(usize),
}

/// What a handle sends to the dispatcher.
#[derive(Debug)]
pub enum Cmd {
    Continue,
    Suspend(usize),
    Transmit(usize),
    Stop(usize),
    Lock(usize),
    Unlock,
    Signal(Action),
    Request(Query),
}

} // verus!
