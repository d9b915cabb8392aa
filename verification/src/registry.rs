//! The registry of emitters: who receives input, who is suspended, who is
//! gone, and which emitter, if any, holds the input lock.

use std::collections::HashMap;
use vstd::prelude::*;
use vstd::std_specs::hash::*;
use vstd::std_specs::iter::IteratorSpec;

verus! {

broadcast use vstd::std_specs::hash::group_hash_axioms;

/// One registered consumer of input: the sending end of its channel and two
/// flags.
pub struct EventEmitter<T> {
    pub event_tx: T,
    pub is_suspend: bool,
    pub is_running: bool,
}

/// The registry with the emitter `id`, if there is one, marked as suspended
/// or not.
pub open spec fn suspended<T>(m: Map<usize, EventEmitter<T>>, id: usize, state: bool) -> Map<
    usize,
    EventEmitter<T>,
> {
    if m.contains_key(id) {
        m.insert(id, EventEmitter { is_suspend: state, ..m[id] })
    } else {
        m
    }
}

/// The registry with the emitter `id`, if there is one, marked as stopped.
pub open spec fn stopped<T>(m: Map<usize, EventEmitter<T>>, id: usize) -> Map<
    usize,
    EventEmitter<T>,
> {
    if m.contains_key(id) {
        m.insert(id, EventEmitter { is_running: false, ..m[id] })
    } else {
        m
    }
}

/// The registry without the emitters that were stopped.
pub open spec fn running<T>(m: Map<usize, EventEmitter<T>>) -> Map<usize, EventEmitter<T>> {
    Map::new(|id: usize| m.contains_key(id) && m[id].is_running, |id: usize| m[id])
}

/// The lock owner after emitter `id` asked for the lock: the lock is given
/// only when nobody holds it. Zero stands for nobody.
pub open spec fn locked(lock_owner: usize, id: usize) -> usize {
    if lock_owner == 0 {
        id
    } else {
        lock_owner
    }
}

/// Whether an input event goes to emitter `id`: to every emitter that is
/// not suspended when nobody holds the lock, else to the owner alone.
pub open spec fn receives<T>(m: Map<usize, EventEmitter<T>>, lock_owner: usize, id: usize) -> bool {
    m.contains_key(id) && if lock_owner == 0 {
        !m[id].is_suspend
    } else {
        id == lock_owner
    }
}

/// The lock owner after an input event was routed: an owner that is gone
/// loses the lock.
pub open spec fn owner_after<T>(m: Map<usize, EventEmitter<T>>, lock_owner: usize) -> usize {
    if lock_owner != 0 && !m.contains_key(lock_owner) {
        0
    } else {
        lock_owner
    }
}

/// Sets the suspend flag of emitter `id`, if there is one.
fn flag_suspend<T>(id: usize, roster: &mut HashMap<usize, EventEmitter<T>>, state: bool)
    ensures
        final(roster)@ == suspended(old(roster)@, id, state),
{
    match roster.remove(&id) {
        Some(e) => {
            roster.insert(
                id,
                EventEmitter { event_tx: e.event_tx, is_suspend: state, is_running: e.is_running },
            );
            proof {
                assert(roster@ =~= suspended(old(roster)@, id, state));
            }
        },
        None => {
            proof {
                assert(roster@ =~= old(roster)@);
            }
        },
    }
}

/// Stops input to emitter `id` until `transmit`.
pub fn suspend<T>(id: usize, roster: &mut HashMap<usize, EventEmitter<T>>)
    ensures
        final(roster)@ == suspended(old(roster)@, id, true),
{
    flag_suspend(id, roster, true);
}

/// Lets input reach emitter `id` again.
pub fn transmit<T>(id: usize, roster: &mut HashMap<usize, EventEmitter<T>>)
    ensures
        final(roster)@ == suspended(old(roster)@, id, false),
{
    flag_suspend(id, roster, false);
}

/// Marks emitter `id` as stopped; the next sweep removes it.
pub fn stop<T>(id: usize, roster: &mut HashMap<usize, EventEmitter<T>>)
    ensures
        final(roster)@ == stopped(old(roster)@, id),
{
    match roster.remove(&id) {
        Some(e) => {
            roster.insert(
                id,
                EventEmitter { event_tx: e.event_tx, is_suspend: e.is_suspend, is_running: false },
            );
            proof {
                assert(roster@ =~= stopped(old(roster)@, id));
            }
        },
        None => {
            proof {
                assert(roster@ =~= old(roster)@);
            }
        },
    }
}

/// The lock owner after emitter `id` asked for the lock.
pub fn lock(id: usize, lock_owner: usize) -> (r: usize)
    ensures
        r == locked(lock_owner, id),
{
    if lock_owner == 0 {
        id
    } else {
        lock_owner
    }
}

/// The lock owner after the lock was given back: nobody.
pub fn unlock(lock_owner: usize) -> (r: usize)
    ensures
        r == 0,
{
    0
}

/// Whether `key` can be the id of a new emitter: not zero and not taken.
pub fn vacant<T>(roster: &HashMap<usize, EventEmitter<T>>, key: usize) -> (r: bool)
    ensures
        r == (key != 0 && !roster@.contains_key(key)),
{
    key != 0 && !roster.contains_key(&key)
}

/// Registers a new emitter under `id`: running and not suspended.
pub fn enroll<T>(roster: &mut HashMap<usize, EventEmitter<T>>, id: usize, event_tx: T)
    ensures
        final(roster)@ == old(roster)@.insert(
            id,
            EventEmitter { event_tx, is_suspend: false, is_running: true },
        ),
{
    roster.insert(id, EventEmitter { event_tx, is_suspend: false, is_running: true });
}

/// The ids of the emitters of `roster`, each once, in no particular order.
pub fn all_ids<T>(roster: &HashMap<usize, EventEmitter<T>>) -> (ids: Vec<usize>)
    ensures
        ids@.no_duplicates(),
        forall|id: usize| ids@.contains(id) <==> roster@.contains_key(id),
{
    let mut ids: Vec<usize> = Vec::new();
    let ghost keys = spec_keys_iter(roster).remaining();
    for k in it: roster.keys()
        invariant
            it.seq() == keys,
            ids@.len() == it.index(),
            forall|j: int| 0 <= j < ids@.len() ==> ids@[j] == *keys[j],
    {
        ids.push(*k);
    }
    proof {
        assert(ids@ =~= keys.unref());
        assert forall|id: usize| ids@.contains(id) <==> roster@.contains_key(id) by {
            assert(ids@.to_set().contains(id) <==> roster@.dom().contains(id));
        }
    }
    ids
}

/// Removes the emitters that were stopped.
pub fn sweep<T>(roster: &mut HashMap<usize, EventEmitter<T>>)
    ensures
        final(roster)@ == running(old(roster)@),
{
    let ids = all_ids(roster);
    let ghost before = roster@;
    let mut i: usize = 0;
    while i < ids.len()
        invariant
            i <= ids.len(),
            forall|id: usize| ids@.contains(id) <==> before.contains_key(id),
            forall|id: usize| #[trigger]
                roster@.contains_key(id) <==> before.contains_key(id) && (before[id].is_running
                    || !ids@.take(i as int).contains(id)),
            forall|id: usize| #[trigger] roster@.contains_key(id) ==> roster@[id] == before[id],
        decreases ids.len() - i,
    {
        let id = ids[i];
        let gone = match roster.get(&id) {
            Some(e) => !e.is_running,
            None => false,
        };
        let ghost prior = roster@;
        if gone {
            roster.remove(&id);
        }
        proof {
            let short = ids@.take(i as int);
            let long = ids@.take(i + 1);
            assert(long =~= short.push(id));
            assert(ids@.contains(id));
            assert forall|k: usize| #[trigger]
                roster@.contains_key(k) <==> before.contains_key(k) && (before[k].is_running
                    || !long.contains(k)) by {
                if k == id {
                    assert(long[i as int] == id);
                } else {
                    if long.contains(k) {
                        let j = choose|j: int| 0 <= j < long.len() && long[j] == k;
                        assert(short[j] == k);
                    }
                    if short.contains(k) {
                        let j = choose|j: int| 0 <= j < short.len() && short[j] == k;
                        assert(long[j] == k);
                    }
                }
            }
        }
        i += 1;
    }
    proof {
        assert(ids@.take(ids.len() as int) =~= ids@);
        assert(roster@ =~= running(before));
    }
}

/// Where an input event goes, and who holds the lock afterwards.
pub struct Delivery {
    /// The emitters that receive the event, each once.
    pub to: Vec<usize>,
    pub lock_owner: usize,
}

/// Routes one input event: to every emitter that is not suspended when
/// nobody holds the lock, else to the owner alone. An owner that is no
/// longer registered loses the lock, and the event goes to nobody.
pub fn route<T>(roster: &HashMap<usize, EventEmitter<T>>, lock_owner: usize) -> (d: Delivery)
    ensures
        d.to@.no_duplicates(),
        forall|id: usize| d.to@.contains(id) <==> receives(roster@, lock_owner, id),
        d.lock_owner == owner_after(roster@, lock_owner),
{
    let mut to: Vec<usize> = Vec::new();
    if lock_owner != 0 {
        if roster.contains_key(&lock_owner) {
            to.push(lock_owner);
            proof {
                assert(to@ =~= seq![lock_owner]);
                assert(to@[0] == lock_owner);
            }
            return Delivery { to, lock_owner };
        }
        return Delivery { to, lock_owner: 0 };
    }
    let ids = all_ids(roster);
    let mut i: usize = 0;
    while i < ids.len()
        invariant
            i <= ids.len(),
            lock_owner == 0,
            ids@.no_duplicates(),
            forall|id: usize| ids@.contains(id) <==> roster@.contains_key(id),
            to@.no_duplicates(),
            forall|id: usize|
                to@.contains(id) <==> ids@.take(i as int).contains(id) && !roster@[id].is_suspend,
            forall|j: int| 0 <= j < to@.len() ==> ids@.take(i as int).contains(#[trigger] to@[j]),
        decreases ids.len() - i,
    {
        let id = ids[i];
        let open = match roster.get(&id) {
            Some(e) => !e.is_suspend,
            None => false,
        };
        let ghost prior = to@;
        let ghost short = ids@.take(i as int);
        let ghost long = ids@.take(i + 1);
        proof {
            assert(ids@.contains(id));
            assert(long =~= short.push(id));
            if short.contains(id) {
                let j = choose|j: int| 0 <= j < short.len() && short[j] == id;
                assert(ids@[j] == id);
            }
        }
        if open {
            to.push(id);
        }
        proof {
            let now = to@;
            assert forall|k: usize|
                now.contains(k) <==> long.contains(k) && !roster@[k].is_suspend by {
                if now.contains(k) {
                    let j = choose|j: int| 0 <= j < now.len() && now[j] == k;
                    if j < prior.len() {
                        assert(prior[j] == k);
                        assert(prior.contains(k));
                        let m = choose|m: int| 0 <= m < short.len() && short[m] == k;
                        assert(long[m] == k);
                    } else {
                        assert(long[i as int] == k);
                    }
                }
                if long.contains(k) && !roster@[k].is_suspend {
                    let m = choose|m: int| 0 <= m < long.len() && long[m] == k;
                    if m < i {
                        assert(short[m] == k);
                        assert(prior.contains(k));
                        let j = choose|j: int| 0 <= j < prior.len() && prior[j] == k;
                        assert(now[j] == k);
                    } else {
                        assert(now[now.len() - 1] == k);
                    }
                }
            }
        }
        i += 1;
    }
    proof {
        assert(ids@.take(ids.len() as int) =~= ids@);
    }
    Delivery { to, lock_owner }
}

} // verus!
