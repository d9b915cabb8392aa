//! What an action does: the calls it makes on the device, and the change
//! that mirrors them in the model once the device has taken them.

use crate::device::{ops_view, push_op, DeviceOp, DeviceOpView};
use crate::buffer::{distance, ScreenBuffer};
use crate::error::Error;
use crate::grid::{magnitude, Grid, Platform};
use crate::message::Action;
use crate::store::{ScreenView, Store, StoreView};
use crate::style::{Clear, Color, Style, FX_RESET};
use crate::text::grapheme_clusters;
use vstd::prelude::*;

verus! {

/// A coordinate taken into `0 .. side`.
pub open spec fn clamped(x: i16, side: int) -> int {
    let x = if x < 0 {
        0
    } else {
        x as int
    };
    if x >= side {
        side - 1
    } else {
        x
    }
}

/// The distance of a move of `n` towards the origin from position `at`: the
/// absolute value of `n`, cut where the move would leave the window.
pub open spec fn back_by(n: i16, at: int) -> int {
    if magnitude(n as int) > at {
        at
    } else {
        magnitude(n as int)
    }
}

/// The distance of a move of `n` away from the origin from position `at`:
/// the absolute value of `n`, cut where the move would leave a window of
/// `side` positions. Nothing is left to move from the last position or past
/// it.
pub open spec fn forth_by(n: i16, at: int, side: int) -> int {
    let room = if at < side {
        side - 1 - at
    } else {
        0
    };
    if magnitude(n as int) > room {
        room
    } else {
        magnitude(n as int)
    }
}

/// Whether a window of `w` columns and `h` rows can be shown.
pub open spec fn sized(w: i16, h: i16) -> bool {
    w > 0 && h > 0
}

/// `ops` followed by a full paint of `g`: to the origin, the paint if there
/// is any, back to the cursor, flush.
pub open spec fn with_render(ops: Seq<DeviceOpView>, g: Grid) -> Seq<DeviceOpView> {
    let ops = ops.push(DeviceOpView::Goto(0, 0));
    let ops = if g.render_paint().len() > 0 {
        ops.push(DeviceOpView::Paint(g.render_paint()))
    } else {
        ops
    };
    ops.push(DeviceOpView::Goto(g.col() as i16, g.row() as i16)).push(DeviceOpView::Flush)
}

/// `ops` followed by a paint of what changed in `g`: the paint if there is
/// any, back to the cursor, flush.
pub open spec fn with_refresh(ops: Seq<DeviceOpView>, g: Grid) -> Seq<DeviceOpView> {
    let ops = if g.refresh_paint().len() > 0 {
        ops.push(DeviceOpView::Paint(g.refresh_paint()))
    } else {
        ops
    };
    ops.push(DeviceOpView::Goto(g.col() as i16, g.row() as i16)).push(DeviceOpView::Flush)
}

/// `ops` followed by the calls that make the device raw or cooked, turn
/// the mouse on or off, and show or hide the cursor.
pub open spec fn with_modes(ops: Seq<DeviceOpView>, raw: bool, mouse: bool, cursor: bool) -> Seq<
    DeviceOpView,
> {
    ops.push(
        if raw {
            DeviceOpView::Raw
        } else {
            DeviceOpView::Cook
        },
    ).push(
        if mouse {
            DeviceOpView::EnableMouse
        } else {
            DeviceOpView::DisableMouse
        },
    ).push(
        if cursor {
            DeviceOpView::ShowCursor
        } else {
            DeviceOpView::HideCursor
        },
    )
}

/// `ops` followed by a flush where the device buffers its output.
pub open spec fn with_flush(ops: Seq<DeviceOpView>, platform: Platform) -> Seq<DeviceOpView> {
    match platform {
        Platform::Ansi => ops.push(DeviceOpView::Flush),
        Platform::Console => ops,
    }
}

/// The calls that `action` makes on the device when the model is `s`.
pub open spec fn device_ops(action: Action, s: StoreView) -> Seq<DeviceOpView> {
    let g = s.grid();
    match action {
        Action::Goto(col, row) => seq![
            DeviceOpView::Goto(clamped(col, g.width) as i16, clamped(row, g.height) as i16),
        ],
        Action::Up(n) => seq![DeviceOpView::Up(back_by(n, g.row()) as i16)],
        Action::Down(n) => seq![DeviceOpView::Down(forth_by(n, g.row(), g.height) as i16)],
        Action::Left(n) => seq![DeviceOpView::Left(back_by(n, g.col()) as i16)],
        Action::Right(n) => seq![DeviceOpView::Right(forth_by(n, g.col(), g.width) as i16)],
        Action::Clear(clr) => seq![DeviceOpView::Clear(clr)],
        Action::Prints(text) => seq![DeviceOpView::Prints(text@)],
        Action::Printf(text) => seq![DeviceOpView::Printf(text@)],
        Action::SetContent(_, _, _) => Seq::empty(),
        Action::Flush => seq![DeviceOpView::Flush],
        Action::Render => with_render(Seq::empty(), g),
        Action::Refresh => with_refresh(Seq::empty(), g),
        Action::Resize(w, h) => if sized(w, h) {
            seq![DeviceOpView::Resize(w, h)]
        } else {
            Seq::empty()
        },
        Action::SetFx(fx) => seq![DeviceOpView::SetFx(fx)],
        Action::SetFg(c) => seq![DeviceOpView::SetFg(c)],
        Action::SetBg(c) => seq![DeviceOpView::SetBg(c)],
        Action::SetStyles(f, b, fx) => seq![DeviceOpView::SetStyles(f, b, fx)],
        Action::ResetStyles => seq![DeviceOpView::ResetStyles],
        Action::HideCursor => seq![DeviceOpView::HideCursor],
        Action::ShowCursor => seq![DeviceOpView::ShowCursor],
        Action::EnableMouse => seq![DeviceOpView::EnableMouse],
        Action::DisableMouse => seq![DeviceOpView::DisableMouse],
        Action::Raw => seq![DeviceOpView::Raw],
        Action::Cook => seq![DeviceOpView::Cook],
        Action::NewScreen => with_flush(
            seq![
                if s.id == 0 {
                    DeviceOpView::EnableAlt
                } else {
                    DeviceOpView::Clear(Clear::All)
                },
                DeviceOpView::Cook,
                DeviceOpView::DisableMouse,
                DeviceOpView::ShowCursor,
                DeviceOpView::ResetStyles,
                DeviceOpView::Goto(0, 0),
            ],
            s.platform,
        ),
        Action::SwitchTo(id) => if id == s.id || !s.contains(id as int) {
            Seq::empty()
        } else if id == 0 {
            let to = s.screens[0];
            with_flush(
                with_modes(seq![DeviceOpView::DisableAlt], to.raw, to.mouse, to.cursor_visible),
                s.platform,
            )
        } else {
            let to = s.screens[id as int];
            let ops = if s.id == 0 {
                seq![DeviceOpView::EnableAlt]
            } else {
                Seq::empty()
            };
            with_flush(
                with_modes(
                    with_render(ops.push(DeviceOpView::Clear(Clear::All)), to.grid),
                    to.raw,
                    to.mouse,
                    to.cursor_visible,
                ),
                s.platform,
            )
        },
        Action::Resized => Seq::empty(),
        Action::SyncMarker(_, _) => Seq::empty(),
        Action::Jump => Seq::empty(),
        Action::SyncTabSize(_) => Seq::empty(),
    }
}

/// The model after `action`, when it was `s` and the device reports a
/// window of `size`.
pub open spec fn acted(action: Action, s: StoreView, size: (i16, i16)) -> StoreView {
    let g = s.grid();
    match action {
        Action::Goto(col, row) => s.with_grid(g.goto(clamped(col, g.width), clamped(row, g.height))),
        Action::Up(n) => s.with_grid(g.up(back_by(n, g.row()))),
        Action::Down(n) => s.with_grid(g.down(forth_by(n, g.row(), g.height))),
        Action::Left(n) => s.with_grid(g.left(back_by(n, g.col()))),
        Action::Right(n) => s.with_grid(g.right(forth_by(n, g.col(), g.width))),
        Action::Clear(clr) => s.with_grid(g.cleared(clr)),
        Action::Prints(text) => s.with_grid(g.content(grapheme_clusters(text@))),
        Action::Printf(text) => s.with_grid(g.content(grapheme_clusters(text@))),
        Action::SetContent(text, col, row) => s.with_grid(
            g.goto(col as int, row as int).content(grapheme_clusters(text@)),
        ),
        Action::Flush => s,
        Action::Render => s.with_grid(g.painted()),
        Action::Refresh => s.with_grid(g.painted()),
        Action::Resize(w, h) => if sized(w, h) {
            s.with_grid(g.resized(w as int, h as int))
        } else {
            s
        },
        Action::SetFx(fx) => s.with_grid(g.with_style(Style::Fx(fx))),
        Action::SetFg(c) => s.with_grid(g.with_style(Style::Fg(c))),
        Action::SetBg(c) => s.with_grid(g.with_style(Style::Bg(c))),
        Action::SetStyles(f, b, fx) => s.with_grid(g.with_styles(f, b, fx)),
        Action::ResetStyles => s.with_grid(g.with_styles(Color::Reset, Color::Reset, FX_RESET)),
        Action::HideCursor => s.with_current(ScreenView { cursor_visible: false, ..s.current() }),
        Action::ShowCursor => s.with_current(ScreenView { cursor_visible: true, ..s.current() }),
        Action::EnableMouse => s.with_current(ScreenView { mouse: true, ..s.current() }),
        Action::DisableMouse => s.with_current(ScreenView { mouse: false, ..s.current() }),
        Action::Raw => s.with_current(ScreenView { raw: true, ..s.current() }),
        Action::Cook => s.with_current(ScreenView { raw: false, ..s.current() }),
        Action::NewScreen => s.grown(g.width, g.height),
        Action::SwitchTo(id) => if id == s.id || !s.contains(id as int) {
            s
        } else if id == 0 {
            s.switched(0)
        } else {
            s.switched(id as int).with_grid(s.screens[id as int].grid.painted())
        },
        Action::Resized => if sized(size.0, size.1) {
            s.with_grid(g.resized(size.0 as int, size.1 as int))
        } else {
            s
        },
        Action::SyncMarker(col, row) => s.with_grid(g.mark(col as int, row as int)),
        Action::Jump => s.with_grid(g.jump()),
        Action::SyncTabSize(n) => if n > 0 {
            s.with_grid(g.with_tab_size(n as int))
        } else {
            s
        },
    }
}

/// Appends a full paint of `buffer`.
fn push_render(ops: &mut Vec<DeviceOp>, buffer: &ScreenBuffer)
    requires
        buffer.wf(),
    ensures
        ops_view(final(ops)@) == with_render(ops_view(old(ops)@), buffer@),
{
    let (col, row) = buffer.coord();
    push_op(ops, DeviceOp::Goto(0, 0));
    let paint = buffer.paint();
    if paint.len() > 0 {
        push_op(ops, DeviceOp::Paint(paint));
    }
    push_op(ops, DeviceOp::Goto(col, row));
    push_op(ops, DeviceOp::Flush);
}

/// Appends a paint of what changed in `buffer`.
fn push_refresh(ops: &mut Vec<DeviceOp>, buffer: &ScreenBuffer)
    requires
        buffer.wf(),
    ensures
        ops_view(final(ops)@) == with_refresh(ops_view(old(ops)@), buffer@),
{
    let (col, row) = buffer.coord();
    let paint = buffer.diff();
    if paint.len() > 0 {
        push_op(ops, DeviceOp::Paint(paint));
    }
    push_op(ops, DeviceOp::Goto(col, row));
    push_op(ops, DeviceOp::Flush);
}

/// Appends the calls that set the three modes of the device.
fn push_modes(ops: &mut Vec<DeviceOp>, raw: bool, mouse: bool, cursor: bool)
    ensures
        ops_view(final(ops)@) == with_modes(ops_view(old(ops)@), raw, mouse, cursor),
{
    if raw {
        push_op(ops, DeviceOp::Raw);
    } else {
        push_op(ops, DeviceOp::Cook);
    }
    if mouse {
        push_op(ops, DeviceOp::EnableMouse);
    } else {
        push_op(ops, DeviceOp::DisableMouse);
    }
    if cursor {
        push_op(ops, DeviceOp::ShowCursor);
    } else {
        push_op(ops, DeviceOp::HideCursor);
    }
}

/// Appends a flush where the device buffers its output.
fn push_flush(ops: &mut Vec<DeviceOp>, platform: Platform)
    ensures
        ops_view(final(ops)@) == with_flush(ops_view(old(ops)@), platform),
{
    match platform {
        Platform::Ansi => push_op(ops, DeviceOp::Flush),
        Platform::Console => {},
    }
}

/// A coordinate taken into `0 .. side`.
fn clamp(x: i16, side: i16) -> (r: i16)
    requires
        side > 0,
    ensures
        r == clamped(x, side as int),
        0 <= r < side,
{
    let x = if x < 0 {
        0
    } else {
        x
    };
    if x >= side {
        side - 1
    } else {
        x
    }
}

/// The distance of a move towards the origin, cut at the origin.
fn back(n: i16, at: i16) -> (r: i16)
    requires
        at >= 0,
    ensures
        r == back_by(n, at as int),
        0 <= r <= at,
{
    if distance(n) > at as usize {
        at
    } else {
        distance(n) as i16
    }
}

/// The distance of a move away from the origin, cut at the last position.
fn forth(n: i16, at: i16, side: i16) -> (r: i16)
    requires
        0 <= at <= side,
        side > 0,
    ensures
        r == forth_by(n, at as int, side as int),
        0 <= r < side,
{
    let room = if at < side {
        side - 1 - at
    } else {
        0
    };
    if distance(n) > room as usize {
        room
    } else {
        distance(n) as i16
    }
}

/// The calls that `action` makes on the device, in order. The model is
/// only read: it is changed by `handle_action`, once the device has taken
/// the calls.
pub fn device_calls(action: &Action, store: &Store) -> (ops: Vec<DeviceOp>)
    requires
        store.wf(),
    ensures
        ops_view(ops@) == device_ops(*action, store@),
{
    let mut ops: Vec<DeviceOp> = Vec::new();
    assert(ops_view(ops@) =~= Seq::<DeviceOpView>::empty());
    match action {
        Action::Goto(col, row) => {
            let (w, h) = store.size();
            push_op(&mut ops, DeviceOp::Goto(clamp(*col, w), clamp(*row, h)));
        },
        Action::Up(n) => {
            let (_, r) = store.coord();
            push_op(&mut ops, DeviceOp::Up(back(*n, r)));
        },
        Action::Down(n) => {
            let (_, h) = store.size();
            let (_, r) = store.coord();
            push_op(&mut ops, DeviceOp::Down(forth(*n, r, h)));
        },
        Action::Left(n) => {
            let (c, _) = store.coord();
            push_op(&mut ops, DeviceOp::Left(back(*n, c)));
        },
        Action::Right(n) => {
            let (w, _) = store.size();
            let (c, _) = store.coord();
            push_op(&mut ops, DeviceOp::Right(forth(*n, c, w)));
        },
        Action::Clear(clr) => {
            push_op(&mut ops, DeviceOp::Clear(*clr));
        },
        Action::Prints(text) => {
            push_op(&mut ops, DeviceOp::Prints(text.clone()));
        },
        Action::Printf(text) => {
            push_op(&mut ops, DeviceOp::Printf(text.clone()));
        },
        Action::SetContent(_, _, _) => {},
        Action::Flush => {
            push_op(&mut ops, DeviceOp::Flush);
        },
        Action::Render => {
            push_render(&mut ops, store.buffer());
        },
        Action::Refresh => {
            push_refresh(&mut ops, store.buffer());
        },
        Action::Resize(w, h) => {
            if *w > 0 && *h > 0 {
                push_op(&mut ops, DeviceOp::Resize(*w, *h));
            }
        },
        Action::SetFx(fx) => {
            push_op(&mut ops, DeviceOp::SetFx(*fx));
        },
        Action::SetFg(c) => {
            push_op(&mut ops, DeviceOp::SetFg(*c));
        },
        Action::SetBg(c) => {
            push_op(&mut ops, DeviceOp::SetBg(*c));
        },
        Action::SetStyles(f, b, fx) => {
            push_op(&mut ops, DeviceOp::SetStyles(*f, *b, *fx));
        },
        Action::ResetStyles => {
            push_op(&mut ops, DeviceOp::ResetStyles);
        },
        Action::HideCursor => {
            push_op(&mut ops, DeviceOp::HideCursor);
        },
        Action::ShowCursor => {
            push_op(&mut ops, DeviceOp::ShowCursor);
        },
        Action::EnableMouse => {
            push_op(&mut ops, DeviceOp::EnableMouse);
        },
        Action::DisableMouse => {
            push_op(&mut ops, DeviceOp::DisableMouse);
        },
        Action::Raw => {
            push_op(&mut ops, DeviceOp::Raw);
        },
        Action::Cook => {
            push_op(&mut ops, DeviceOp::Cook);
        },
        Action::NewScreen => {
            if store.id() == 0 {
                push_op(&mut ops, DeviceOp::EnableAlt);
            } else {
                push_op(&mut ops, DeviceOp::Clear(Clear::All));
            }
            push_op(&mut ops, DeviceOp::Cook);
            push_op(&mut ops, DeviceOp::DisableMouse);
            push_op(&mut ops, DeviceOp::ShowCursor);
            push_op(&mut ops, DeviceOp::ResetStyles);
            push_op(&mut ops, DeviceOp::Goto(0, 0));
            push_flush(&mut ops, store.platform());
        },
        Action::SwitchTo(id) => {
            let id = *id;
            let current = store.id();
            if current != id && store.contains(id) {
                if id == 0 {
                    push_op(&mut ops, DeviceOp::DisableAlt);
                } else {
                    if current == 0 {
                        push_op(&mut ops, DeviceOp::EnableAlt);
                    }
                    push_op(&mut ops, DeviceOp::Clear(Clear::All));
                    push_render(&mut ops, store.buffer_at(id));
                }
                let (raw, mouse, cursor) = store.modes_at(id);
                push_modes(&mut ops, raw, mouse, cursor);
                push_flush(&mut ops, store.platform());
            }
        },
        Action::Resized => {},
        Action::SyncMarker(_, _) => {},
        Action::Jump => {},
        Action::SyncTabSize(_) => {},
    }
    ops
}

/// The model after the device took the calls of `action`, or refused one.
pub open spec fn mirrored(
    action: Action,
    s: StoreView,
    size: (i16, i16),
    device: Result<(), Error>,
) -> StoreView {
    match device {
        Ok(_) => acted(action, s, size),
        Err(_) => s,
    }
}

/// Mirrors `action` in the model once the device has taken its calls.
/// `device` is what became of those calls: after a failure the model stays
/// as it was and the error is handed on. `size` is the window that the
/// device reports; only `Resized` reads it. A window without columns or
/// rows and a tab size of zero are ignored.
pub fn handle_action(
    action: Action,
    store: &mut Store,
    size: (i16, i16),
    device: Result<(), Error>,
) -> (r: Result<(), Error>)
    requires
        old(store).wf(),
    ensures
        final(store).wf(),
        r == device,
        final(store)@ == mirrored(action, old(store)@, size, device),
{
    if device.is_err() {
        return device;
    }
    let ghost want = acted(action, store@, size);
    match action {
        Action::Goto(col, row) => {
            let (w, h) = store.size();
            store.sync_goto(clamp(col, w), clamp(row, h));
        },
        Action::Up(n) => {
            let (_, r) = store.coord();
            store.sync_up(back(n, r));
        },
        Action::Down(n) => {
            let (_, h) = store.size();
            let (_, r) = store.coord();
            store.sync_down(forth(n, r, h));
        },
        Action::Left(n) => {
            let (c, _) = store.coord();
            store.sync_left(back(n, c));
        },
        Action::Right(n) => {
            let (w, _) = store.size();
            let (c, _) = store.coord();
            store.sync_right(forth(n, c, w));
        },
        Action::Clear(clr) => {
            store.sync_clear(clr);
        },
        Action::Prints(text) => {
            store.sync_content(text.as_str());
        },
        Action::Printf(text) => {
            store.sync_content(text.as_str());
        },
        Action::SetContent(text, col, row) => {
            store.sync_goto(col, row);
            store.sync_content(text.as_str());
            proof {
                assert(store@.screens =~= want.screens);
            }
        },
        Action::Flush => {},
        Action::Render => {
            store.sync_front();
        },
        Action::Refresh => {
            store.sync_front();
        },
        Action::Resize(w, h) => {
            if w > 0 && h > 0 {
                store.sync_size(w, h);
            }
        },
        Action::SetFx(fx) => {
            store.sync_style(Style::Fx(fx));
        },
        Action::SetFg(c) => {
            store.sync_style(Style::Fg(c));
        },
        Action::SetBg(c) => {
            store.sync_style(Style::Bg(c));
        },
        Action::SetStyles(f, b, fx) => {
            store.sync_styles(f, b, fx);
        },
        Action::ResetStyles => {
            store.sync_styles(Color::Reset, Color::Reset, FX_RESET);
        },
        Action::HideCursor => {
            store.sync_cursor(false);
        },
        Action::ShowCursor => {
            store.sync_cursor(true);
        },
        Action::EnableMouse => {
            store.sync_mouse(true);
        },
        Action::DisableMouse => {
            store.sync_mouse(false);
        },
        Action::Raw => {
            store.sync_raw(true);
        },
        Action::Cook => {
            store.sync_raw(false);
        },
        Action::NewScreen => {
            let (w, h) = store.size();
            store.new_screen(w, h);
        },
        Action::SwitchTo(id) => {
            if store.id() != id && store.contains(id) {
                let _ = store.set(id);
                if id != 0 {
                    store.sync_front();
                }
                proof {
                    assert(store@.screens =~= want.screens);
                }
            }
        },
        Action::Resized => {
            if size.0 > 0 && size.1 > 0 {
                store.sync_size(size.0, size.1);
            }
        },
        Action::SyncMarker(col, row) => {
            store.sync_marker(col, row);
        },
        Action::Jump => {
            store.jump();
        },
        Action::SyncTabSize(n) => {
            if n > 0 {
                store.sync_tab_size(n);
            }
        },
    }
    device
}

/// Mirrors `action` in the model once the device has taken its calls; after
/// a failure the model stays as it was and the error is handed on.
pub fn execute(
    action: Action,
    store: &mut Store,
    size: (i16, i16),
    device: Result<(), Error>,
) -> (r: Result<(), Error>)
    requires
        old(store).wf(),
    ensures
        final(store).wf(),
        r == device,
        final(store)@ == mirrored(action, old(store)@, size, device),
{
    handle_action(action, store, size, device)
}

} // verus!
