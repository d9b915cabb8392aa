//! The dispatcher's decisions: the steps that the owner of the device takes
//! for each command, and what the command does to the model and to the
//! registry once they are taken.

use crate::device::{ops_view, DeviceOp, DeviceOpView};
use crate::error::Error;
use crate::grid::Platform;
use crate::message::{Action, Cmd, Query, Reply, ReplyView};
use crate::registry::{stop, stopped, suspend, suspended, transmit, EventEmitter};
use crate::router::{device_calls, device_ops, mirrored};
use crate::store::{Store, StoreView};
use std::collections::HashMap;
use vstd::prelude::*;

verus! {

broadcast use vstd::std_specs::hash::group_hash_axioms;

/// One thing to do for a command, in order.
#[derive(Debug)]
pub enum Step {
    /// Make a call on the device.
    Device(DeviceOp),
    /// Send a response to an emitter.
    Respond(usize, Reply),
    /// Make an emitter, or nobody if zero, the owner of the input lock.
    Owner(usize),
    /// Read the cursor position from the device and send it to an emitter.
    ReportPos(usize),
}

/// A [`Step`] as plain values.
pub enum StepView {
    Device(DeviceOpView),
    Respond(usize, ReplyView),
    Owner(usize),
    ReportPos(usize),
}

impl View for Step {
    type V = StepView;

    open spec fn view(&self) -> StepView {
        match *self {
            Step::Device(op) => StepView::Device(op@),
            Step::Respond(id, reply) => StepView::Respond(id, reply@),
            Step::Owner(id) => StepView::Owner(id),
            Step::ReportPos(id) => StepView::ReportPos(id),
        }
    }
}

/// The views of a list of steps.
pub open spec fn steps_view(steps: Seq<Step>) -> Seq<StepView> {
    Seq::new(steps.len(), |i: int| steps[i]@)
}

/// Each device call as a step.
pub open spec fn device_steps(ops: Seq<DeviceOpView>) -> Seq<StepView> {
    Seq::new(ops.len(), |i: int| StepView::Device(ops[i]))
}

/// The response to a query about the model.
pub open spec fn answer(query: Query, s: StoreView) -> ReplyView {
    let g = s.grid();
    match query {
        Query::Size(_) => ReplyView::Size(g.width as i16, g.height as i16),
        Query::Coord(_) => ReplyView::Coord(g.col() as i16, g.row() as i16),
        Query::GetCh(_) => ReplyView::GetCh(g.getch()),
        Query::Screen(_) => ReplyView::Screen(s.id as usize),
        Query::IsRaw(_) => ReplyView::IsRaw(s.current().raw),
        Query::Pos(_) => ReplyView::Empty,
    }
}

/// The emitter that asks.
pub open spec fn asker(query: Query) -> usize {
    match query {
        Query::Size(id) => id,
        Query::Coord(id) => id,
        Query::Pos(id) => id,
        Query::GetCh(id) => id,
        Query::Screen(id) => id,
        Query::IsRaw(id) => id,
    }
}

/// The steps for a query. A question about the model is answered to the
/// emitter that asks, if it is registered. The cursor position comes from
/// the device: where the device answers on its input, the input is locked to
/// the asker while the request is written, unless somebody holds the lock
/// already; elsewhere the position is read and sent to the asker, if it is
/// registered.
pub open spec fn examined<T>(
    query: Query,
    s: StoreView,
    m: Map<usize, EventEmitter<T>>,
    lock_owner: usize,
) -> Seq<StepView> {
    match query {
        Query::Pos(id) => match s.platform {
            Platform::Ansi => if lock_owner == 0 {
                seq![
                    StepView::Owner(id),
                    StepView::Device(DeviceOpView::QueryPos),
                    StepView::Owner(0),
                ]
            } else {
                Seq::empty()
            },
            Platform::Console => if m.contains_key(id) {
                seq![StepView::ReportPos(id)]
            } else {
                Seq::empty()
            },
        },
        _ => if m.contains_key(asker(query)) {
            seq![StepView::Respond(asker(query), answer(query, s))]
        } else {
            Seq::empty()
        },
    }
}

/// Appends one step to a list.
fn push_step(steps: &mut Vec<Step>, step: Step)
    ensures
        steps_view(final(steps)@) == steps_view(old(steps)@).push(step@),
{
    steps.push(step);
    proof {
        assert(steps_view(steps@) =~= steps_view(old(steps)@).push(step@));
    }
}

/// The steps for a query.
pub fn examine<T>(
    query: Query,
    store: &Store,
    roster: &HashMap<usize, EventEmitter<T>>,
    lock_owner: usize,
) -> (steps: Vec<Step>)
    requires
        store.wf(),
    ensures
        steps_view(steps@) == examined(query, store@, roster@, lock_owner),
{
    let mut steps: Vec<Step> = Vec::new();
    assert(steps_view(steps@) =~= Seq::<StepView>::empty());
    match query {
        Query::Size(id) => {
            if roster.contains_key(&id) {
                let (w, h) = store.size();
                push_step(&mut steps, Step::Respond(id, Reply::Size(w, h)));
            }
        },
        Query::Coord(id) => {
            if roster.contains_key(&id) {
                let (col, row) = store.coord();
                push_step(&mut steps, Step::Respond(id, Reply::Coord(col, row)));
            }
        },
        Query::Pos(id) => {
            match store.platform() {
                Platform::Ansi => {
                    if lock_owner == 0 {
                        push_step(&mut steps, Step::Owner(id));
                        push_step(&mut steps, Step::Device(DeviceOp::QueryPos));
                        push_step(&mut steps, Step::Owner(0));
                    }
                },
                Platform::Console => {
                    if roster.contains_key(&id) {
                        push_step(&mut steps, Step::ReportPos(id));
                    }
                },
            }
        },
        Query::GetCh(id) => {
            if roster.contains_key(&id) {
                let s = store.getch();
                push_step(&mut steps, Step::Respond(id, Reply::GetCh(s)));
            }
        },
        Query::Screen(id) => {
            if roster.contains_key(&id) {
                let i = store.id();
                push_step(&mut steps, Step::Respond(id, Reply::Screen(i)));
            }
        },
        Query::IsRaw(id) => {
            if roster.contains_key(&id) {
                let b = store.is_raw();
                push_step(&mut steps, Step::Respond(id, Reply::IsRaw(b)));
            }
        },
    }
    steps
}

/// The steps for a query.
pub fn request<T>(
    query: Query,
    store: &Store,
    roster: &HashMap<usize, EventEmitter<T>>,
    lock_owner: usize,
) -> (steps: Vec<Step>)
    requires
        store.wf(),
    ensures
        steps_view(steps@) == examined(query, store@, roster@, lock_owner),
{
    examine(query, store, roster, lock_owner)
}

/// Mirrors `action` in the model once the device has taken its calls; after
/// a failure the model stays as it was and the error is handed on.
pub fn signal(
    action: Action,
    store: &mut Store,
    size: (i16, i16),
    device: Result<(), Error>,
) -> (r: Result<(), Error>)
    requires
        old(store).wf(),
    ensures
        final(store).wf(),
        r == device,
        final(store)@ == mirrored(action, old(store)@, size, device),
{
    crate::router::execute(action, store, size, device)
}

/// Each device call as a step.
fn as_steps(ops: Vec<DeviceOp>) -> (steps: Vec<Step>)
    ensures
        steps_view(steps@) == device_steps(ops_view(ops@)),
{
    let mut ops = ops;
    let ghost all = ops@;
    let mut back: Vec<Step> = Vec::new();
    while ops.len() > 0
        invariant
            ops@.len() + back@.len() == all.len(),
            forall|j: int| 0 <= j < ops@.len() ==> ops@[j] == all[j],
            forall|j: int|
                0 <= j < back@.len() ==> (#[trigger] back@[j])@ == StepView::Device(
                    all[all.len() - 1 - j]@,
                ),
        decreases ops@.len(),
    {
        match ops.pop() {
            Some(op) => back.push(Step::Device(op)),
            None => {},
        }
    }
    let mut steps: Vec<Step> = Vec::new();
    while back.len() > 0
        invariant
            back@.len() + steps@.len() == all.len(),
            forall|j: int|
                0 <= j < back@.len() ==> (#[trigger] back@[j])@ == StepView::Device(
                    all[all.len() - 1 - j]@,
                ),
            forall|j: int|
                0 <= j < steps@.len() ==> (#[trigger] steps@[j])@ == StepView::Device(all[j]@),
        decreases back@.len(),
    {
        match back.pop() {
            Some(step) => steps.push(step),
            None => {},
        }
    }
    proof {
        assert(steps_view(steps@) =~= device_steps(ops_view(all)));
    }
    steps
}

/// The steps for a command. The lock is given to an emitter only when
/// nobody holds it, and given back only when somebody does. An action
/// contributes its device calls, a query its answer.
pub open spec fn steps_for<T>(
    cmd: Cmd,
    s: StoreView,
    m: Map<usize, EventEmitter<T>>,
    lock_owner: usize,
) -> Seq<StepView> {
    match cmd {
        Cmd::Lock(id) => if lock_owner == 0 {
            seq![StepView::Owner(id)]
        } else {
            Seq::empty()
        },
        Cmd::Unlock => if lock_owner != 0 {
            seq![StepView::Owner(0)]
        } else {
            Seq::empty()
        },
        Cmd::Signal(action) => device_steps(device_ops(action, s)),
        Cmd::Request(query) => examined(query, s, m, lock_owner),
        _ => Seq::empty(),
    }
}

/// The steps to take for a command, in order: on the device, the channels
/// and the input lock. Nothing is changed: `complete` changes the model and
/// the registry once the steps are taken. `lock_owner` is the emitter that
/// holds the input lock, or zero.
pub fn dispatch<T>(
    cmd: &Cmd,
    store: &Store,
    roster: &HashMap<usize, EventEmitter<T>>,
    lock_owner: usize,
) -> (steps: Vec<Step>)
    requires
        store.wf(),
    ensures
        steps_view(steps@) == steps_for(*cmd, store@, roster@, lock_owner),
{
    let mut steps: Vec<Step> = Vec::new();
    assert(steps_view(steps@) =~= Seq::<StepView>::empty());
    match cmd {
        Cmd::Lock(id) => {
            if lock_owner == 0 {
                push_step(&mut steps, Step::Owner(*id));
            }
        },
        Cmd::Unlock => {
            if lock_owner != 0 {
                push_step(&mut steps, Step::Owner(0));
            }
        },
        Cmd::Signal(action) => {
            steps = as_steps(device_calls(action, store));
        },
        Cmd::Request(query) => {
            steps = examine(*query, store, roster, lock_owner);
        },
        _ => {},
    }
    steps
}

/// The model after a command whose steps ended in `outcome`: an action is
/// mirrored only when they succeeded.
pub open spec fn store_after(
    cmd: Cmd,
    s: StoreView,
    size: (i16, i16),
    outcome: Result<(), Error>,
) -> StoreView {
    match cmd {
        Cmd::Signal(action) => mirrored(action, s, size, outcome),
        _ => s,
    }
}

/// The registry after a command whose steps ended in `outcome`.
pub open spec fn roster_after<T>(
    cmd: Cmd,
    m: Map<usize, EventEmitter<T>>,
    outcome: Result<(), Error>,
) -> Map<usize, EventEmitter<T>> {
    if outcome is Err {
        m
    } else {
        match cmd {
            Cmd::Suspend(id) => suspended(m, id, true),
            Cmd::Transmit(id) => suspended(m, id, false),
            Cmd::Stop(id) => stopped(m, id),
            _ => m,
        }
    }
}

/// Ends a command after its steps were taken: changes the model and the
/// registry as the command asks, or leaves both as they were when a step
/// failed, and hands `outcome` on. `size` is the window that the device
/// reports.
pub fn complete<T>(
    cmd: Cmd,
    store: &mut Store,
    roster: &mut HashMap<usize, EventEmitter<T>>,
    size: (i16, i16),
    outcome: Result<(), Error>,
) -> (r: Result<(), Error>)
    requires
        old(store).wf(),
    ensures
        final(store).wf(),
        r == outcome,
        final(store)@ == store_after(cmd, old(store)@, size, outcome),
        final(roster)@ == roster_after(cmd, old(roster)@, outcome),
{
    if outcome.is_err() {
        return outcome;
    }
    match cmd {
        Cmd::Suspend(id) => suspend(id, roster),
        Cmd::Transmit(id) => transmit(id, roster),
        Cmd::Stop(id) => stop(id, roster),
        Cmd::Signal(action) => {
            let _ = signal(action, store, size, outcome);
        },
        _ => {},
    }
    outcome
}

/// Whether the runtime goes on after a command that ended in `outcome`: a
/// failure ends it only when the command before failed too.
pub fn goes_on(failed_before: bool, outcome: &Result<(), Error>) -> (r: bool)
    ensures
        r == !(failed_before && *outcome is Err),
{
    match outcome {
        Ok(_) => true,
        Err(_) => !failed_before,
    }
}

} // verus!
