//! What holds of the bookkeeping, whatever is done to a pool.

use vstd::prelude::*;
use crate::model::{
    kept_of, lemma_drop_first_distinct, lemma_push_distinct, lemma_remove_distinct,
    lemma_sift_partitions, lemma_suffix_distinct, removed_of, PoolView,
};
use crate::state::{Acquire, Release, Slot};

verus! {

/// One thing that can happen to a pool.
pub enum Event<T> {
    /// A caller asks for a slot.
    Acquire(u64),
    /// A slot is given back.
    Release(Slot<T>),
    /// A slot on loan leaves the pool for good.
    Detach,
    /// The recycle run by a caller failed.
    Retry(u64),
    /// A caller gives up waiting.
    Cancel(u64),
    /// The idle slots are sifted with these verdicts.
    Retain(Seq<bool>),
    /// The ceiling is set anew.
    Resize(nat),
    /// The pool is closed.
    Close,
}

impl<T> Event<T> {
    /// Whether the event leaves the ceiling as it is.
    pub open spec fn keeps_ceiling(self) -> bool {
        !(self is Resize)
    }
}

/// The state after one event.
pub open spec fn apply<T>(s: PoolView<T>, e: Event<T>) -> PoolView<T> {
    match e {
        Event::Acquire(caller) => s.after_acquire(caller),
        Event::Release(slot) => s.after_release(slot),
        Event::Detach => s.after_detach(),
        Event::Retry(caller) => s.after_retry(caller),
        Event::Cancel(caller) => s.after_cancel(caller),
        Event::Retain(keep) => s.after_retain(keep),
        Event::Resize(capacity) => s.after_resize(capacity),
        Event::Close => s.after_close(),
    }
}

/// The state after a run of events, the first of them first.
pub open spec fn run<T>(s: PoolView<T>, events: Seq<Event<T>>) -> PoolView<T>
    decreases events.len(),
{
    if events.len() == 0 {
        s
    } else {
        apply(run(s, events.drop_last()), events.last())
    }
}

/// Every event leaves a consistent pool consistent.
pub proof fn lemma_apply_preserves_wf<T>(s: PoolView<T>, e: Event<T>)
    requires
        s.wf(),
    ensures
        apply(s, e).wf(),
{
    match e {
        Event::Acquire(caller) => {
            if !s.closed && s.idle.len() == 0 && s.total >= s.capacity && !s.waiters.contains(
                caller,
            ) {
                lemma_push_distinct(s.waiters, caller);
            }
        },
        Event::Release(slot) => {
            if !s.release_detaches() && s.waiters.len() > 0 {
                lemma_drop_first_distinct(s.waiters);
            }
        },
        Event::Detach => {
            if s.waiters.len() > 0 {
                lemma_drop_first_distinct(s.waiters);
            }
        },
        Event::Retry(caller) => {
            let d = s.drop_loan();
            if !d.closed && d.idle.len() == 0 && d.total >= d.capacity && !d.waiters.contains(
                caller,
            ) {
                lemma_push_distinct(d.waiters, caller);
            }
        },
        Event::Cancel(caller) => {
            if s.waiters.contains(caller) {
                lemma_remove_distinct(s.waiters, s.waiters.index_of(caller));
            }
        },
        Event::Retain(keep) => {
            lemma_sift_partitions(s.idle, keep, s.idle.len());
        },
        Event::Resize(capacity) => {
            let m = s.admitted_by(capacity);
            lemma_suffix_distinct(s.waiters, m as int);
        },
        Event::Close => {},
    }
}

/// A pool stays consistent through every run of events, and its idle and
/// loaned slots always add up to its live slots.
pub proof fn lemma_run_preserves_wf<T>(s: PoolView<T>, events: Seq<Event<T>>)
    requires
        s.wf(),
    ensures
        run(s, events).wf(),
        run(s, events).idle.len() + run(s, events).loaned() == run(s, events).total,
    decreases events.len(),
{
    if events.len() > 0 {
        lemma_run_preserves_wf(s, events.drop_last());
        lemma_apply_preserves_wf(run(s, events.drop_last()), events.last());
    }
}

/// An event that leaves the ceiling alone leaves the live slots under it.
pub proof fn lemma_apply_keeps_ceiling<T>(s: PoolView<T>, e: Event<T>)
    requires
        s.wf(),
        s.total <= s.capacity,
        e.keeps_ceiling(),
    ensures
        apply(s, e).capacity == s.capacity,
        apply(s, e).total <= s.capacity,
{
    match e {
        Event::Retain(keep) => {
            lemma_sift_partitions(s.idle, keep, s.idle.len());
        },
        _ => {},
    }
}

/// On a pool of capacity `n` whose ceiling is never moved, whatever else is
/// done to it: the live slots never exceed `n`, and the idle and the loaned
/// slots add up to the live ones.
pub proof fn lemma_never_above_capacity<T>(n: nat, events: Seq<Event<T>>)
    requires
        forall|i: int| 0 <= i < events.len() ==> (#[trigger] events[i]).keeps_ceiling(),
    ensures
        run(PoolView::<T>::new(n), events).wf(),
        run(PoolView::<T>::new(n), events).capacity == n,
        run(PoolView::<T>::new(n), events).total <= n,
        run(PoolView::<T>::new(n), events).idle.len() + run(
            PoolView::<T>::new(n),
            events,
        ).loaned() == run(PoolView::<T>::new(n), events).total,
    decreases events.len(),
{
    let s = PoolView::<T>::new(n);
    lemma_run_preserves_wf(s, events);
    if events.len() > 0 {
        let before = events.drop_last();
        assert forall|i: int| 0 <= i < before.len() implies (#[trigger] before[i]).keeps_ceiling() by {
            assert(before[i] == events[i]);
        }
        lemma_never_above_capacity::<T>(n, before);
        lemma_apply_keeps_ceiling(run(s, before), events.last());
    }
}

/// Giving back a slot on loan moves exactly one slot.
///
/// On an open pool within its ceiling where nobody waits, the slot becomes
/// idle: one more idle, one fewer on loan, as many live. On a closed pool it
/// leaves: one fewer live, as many idle.
pub proof fn lemma_release_moves_one<T>(s: PoolView<T>, slot: Slot<T>)
    requires
        s.wf(),
        s.loaned() > 0,
    ensures
        !s.closed && s.total <= s.capacity && s.waiters.len() == 0 ==> {
            &&& s.after_release(slot).idle == s.idle.push(slot)
            &&& s.after_release(slot).idle.len() == s.idle.len() + 1
            &&& s.after_release(slot).loaned() == s.loaned() - 1
            &&& s.after_release(slot).total == s.total
            &&& s.release_result(slot) == Release::<T>::Idle
        },
        s.closed ==> {
            &&& s.after_release(slot).total == s.total - 1
            &&& s.after_release(slot).idle == s.idle
            &&& s.release_result(slot) == Release::Detach(slot)
        },
{
}

/// A slot that is given back goes to exactly one place: to one waiting
/// caller, or among the idle, or out of the pool. The live slots on loan or
/// idle are one fewer only in the last case.
pub proof fn lemma_release_loses_nothing<T>(s: PoolView<T>, slot: Slot<T>)
    requires
        s.wf(),
        s.loaned() > 0,
    ensures
        match s.release_result(slot) {
            Release::Idle => s.after_release(slot).idle.last() == slot && s.after_release(
                slot,
            ).total == s.total && s.after_release(slot).waiters == s.waiters && s.waiters.len()
                == 0,
            Release::Handoff { waiter, slot: handed } => handed == slot && waiter == s.waiters[0]
                && s.after_release(slot).idle == s.idle && s.after_release(slot).total == s.total
                && !s.after_release(slot).waiters.contains(waiter),
            Release::Detach(gone) => gone == slot && s.after_release(slot).idle == s.idle
                && s.after_release(slot).total == s.total - 1 && s.after_release(slot).waiters
                == s.waiters,
        },
{
    if !s.release_detaches() && s.waiters.len() > 0 {
        lemma_drop_first_distinct(s.waiters);
    }
}

/// Callers are served in the order in which they came.
///
/// Let `first` and then `second` ask an exhausted pool for a slot. Both are
/// queued, behind those who waited already and in this order. A slot that is
/// then given back never goes to `second`, which stays queued; where nobody
/// waited before, it goes to `first`. The same holds of the room that opens
/// when a slot on loan leaves the pool.
pub proof fn lemma_first_come_first_served<T>(
    s: PoolView<T>,
    first: u64,
    second: u64,
    slot: Slot<T>,
)
    requires
        s.wf(),
        s.acquire_step() is Wait,
        first != second,
        !s.waiters.contains(first),
        !s.waiters.contains(second),
    ensures
        ({
            let q = s.after_acquire(first).after_acquire(second);
            &&& s.after_acquire(first).acquire_step() is Wait
            &&& q.waiters == s.waiters.push(first).push(second)
            &&& q.wf()
            &&& q.after_release(slot).waiters.contains(second)
            &&& q.release_result(slot) matches Release::Handoff { waiter, .. } ==> waiter
                != second && (s.waiters.len() == 0 ==> waiter == first)
            &&& q.after_detach().waiters.contains(second)
            &&& q.detach_wake() matches Some(waiter) ==> waiter != second && (s.waiters.len() == 0
                ==> waiter == first)
        }),
{
    let p = s.after_acquire(first);
    lemma_apply_preserves_wf(s, Event::Acquire(first));
    assert(p.waiters == s.waiters.push(first));
    assert(!p.waiters.contains(second)) by {
        if p.waiters.contains(second) {
            let i = choose|i: int| 0 <= i < p.waiters.len() && p.waiters[i] == second;
            if i < s.waiters.len() {
                assert(s.waiters.contains(s.waiters[i]));
            }
        }
    }
    let q = p.after_acquire(second);
    lemma_apply_preserves_wf(p, Event::Acquire(second));
    let n = s.waiters.len() as int;
    assert(q.waiters[n] == first);
    assert(q.waiters[n + 1] == second);
    assert(q.waiters.drop_first()[n] == second);
    assert(q.waiters.drop_first().contains(second));
    assert(q.waiters.contains(second));
    if s.waiters.len() > 0 {
        assert(q.waiters[0] == s.waiters[0]);
        assert(s.waiters.contains(s.waiters[0]));
    }
    assert(q.drop_loan().waiters == q.waiters);
}

/// Nobody is served ahead of a caller that has waited longer.
///
/// Whatever happens to a pool, bar a caller's own withdrawal: the callers
/// that leave the queue are those at its front, and those that stay keep
/// their places relative to one another, ahead of any newcomer.
pub proof fn lemma_queue_leaves_from_front<T>(s: PoolView<T>, e: Event<T>)
    requires
        s.wf(),
        !(e is Cancel),
    ensures
        exists|m: int|
            0 <= m <= s.waiters.len() && (#[trigger] s.waiters.subrange(
                m,
                s.waiters.len() as int,
            )).is_prefix_of(apply(s, e).waiters),
{
    let n = s.waiters.len() as int;
    let after = apply(s, e).waiters;
    let m: int = match e {
        Event::Release(slot) => if !s.release_detaches() && n > 0 {
            1
        } else {
            0
        },
        Event::Detach => if s.detach_wake() is Some {
            1
        } else {
            0
        },
        Event::Resize(capacity) => s.admitted_by(capacity) as int,
        Event::Close => n,
        _ => 0,
    };
    assert(s.waiters.subrange(m, n).is_prefix_of(after)) by {
        assert(s.waiters.subrange(m, n) =~= after.subrange(0, n - m));
    }
}

/// Closing is for good, and empties the pool of all but its loans.
///
/// After it nothing is idle and nobody waits. Every later request fails and
/// changes nothing, and no event opens the pool again.
pub proof fn lemma_close_is_final<T>(s: PoolView<T>, e: Event<T>, caller: u64)
    requires
        s.wf(),
    ensures
        s.after_close().wf(),
        s.after_close().closed,
        s.after_close().idle.len() == 0,
        s.after_close().waiters.len() == 0,
        s.after_close().total == s.loaned(),
        s.after_close().acquire_step() == Acquire::<T>::Closed,
        s.after_close().after_acquire(caller) == s.after_close(),
        s.closed ==> apply(s, e).closed && apply(s, e).idle.len() == 0 && apply(
            s,
            e,
        ).waiters.len() == 0 && apply(s, e).total <= s.total,
{
    lemma_apply_preserves_wf(s, e);
    if s.closed {
        match e {
            Event::Retain(keep) => {
                lemma_sift_partitions(s.idle, keep, s.idle.len());
            },
            _ => {},
        }
    }
}

/// The slots given back one after another.
pub open spec fn releases<T>(slots: Seq<Slot<T>>) -> Seq<Event<T>> {
    Seq::new(slots.len(), |i: int| Event::Release(slots[i]))
}

/// A closed pool runs empty: once as many slots have been given back as were
/// on loan, nothing is live, nothing idle and nobody waiting.
pub proof fn lemma_closed_pool_drains<T>(s: PoolView<T>, slots: Seq<Slot<T>>)
    requires
        s.wf(),
        s.closed,
        slots.len() <= s.loaned(),
    ensures
        run(s, releases(slots)).closed,
        run(s, releases(slots)).total == s.total - slots.len(),
        run(s, releases(slots)).idle.len() == 0,
        run(s, releases(slots)).waiters.len() == 0,
        slots.len() == s.loaned() ==> run(s, releases(slots)).total == 0,
    decreases slots.len(),
{
    lemma_run_preserves_wf(s, releases(slots));
    if slots.len() > 0 {
        let before = slots.drop_last();
        lemma_closed_pool_drains(s, before);
        assert(releases(slots).drop_last() =~= releases(before));
        assert(releases(slots).last() == Event::Release(slots.last()));
        lemma_run_preserves_wf(s, releases(before));
    }
}

/// Sifting the idle slots touches no slot on loan, and sorts every idle slot
/// into those kept and those removed, as its verdict says.
pub proof fn lemma_retain_sorts_idle<T>(s: PoolView<T>, keep: Seq<bool>)
    requires
        s.wf(),
        keep.len() == s.idle.len(),
    ensures
        s.after_retain(keep).loaned() == s.loaned(),
        s.after_retain(keep).waiters == s.waiters,
        s.after_retain(keep).idle.len() + removed_of(s.idle, keep, s.idle.len()).len()
            == s.idle.len(),
        s.after_retain(keep).total == s.total - removed_of(s.idle, keep, s.idle.len()).len(),
        forall|i: int|
            0 <= i < s.idle.len() && keep[i] ==> s.after_retain(keep).idle.contains(
                #[trigger] s.idle[i],
            ),
        forall|slot: Slot<T>| #[trigger]
            s.after_retain(keep).idle.contains(slot) ==> exists|i: int|
                0 <= i < s.idle.len() && keep[i] && s.idle[i] == slot,
        forall|i: int|
            0 <= i < s.idle.len() && !keep[i] ==> removed_of(s.idle, keep, s.idle.len()).contains(
                (#[trigger] s.idle[i]).resource,
            ),
        forall|resource: T| #[trigger]
            removed_of(s.idle, keep, s.idle.len()).contains(resource) ==> exists|i: int|
                0 <= i < s.idle.len() && !keep[i] && s.idle[i].resource == resource,
{
    lemma_sift_partitions(s.idle, keep, s.idle.len());
    lemma_sift_members(s.idle, keep, s.idle.len());
}

/// Among the first `n` slots, the kept are those with a verdict to keep, and
/// the removed those with a verdict to remove.
proof fn lemma_sift_members<T>(slots: Seq<Slot<T>>, keep: Seq<bool>, n: nat)
    requires
        n <= slots.len(),
        keep.len() == slots.len(),
    ensures
        forall|i: int|
            0 <= i < n && keep[i] ==> kept_of(slots, keep, n).contains(#[trigger] slots[i]),
        forall|slot: Slot<T>| #[trigger]
            kept_of(slots, keep, n).contains(slot) ==> exists|i: int|
                0 <= i < n && keep[i] && slots[i] == slot,
        forall|i: int|
            0 <= i < n && !keep[i] ==> removed_of(slots, keep, n).contains(
                (#[trigger] slots[i]).resource,
            ),
        forall|resource: T| #[trigger]
            removed_of(slots, keep, n).contains(resource) ==> exists|i: int|
                0 <= i < n && !keep[i] && slots[i].resource == resource,
    decreases n,
{
    if n > 0 {
        let m = (n - 1) as nat;
        lemma_sift_members(slots, keep, m);
        let k0 = kept_of(slots, keep, m);
        let k1 = kept_of(slots, keep, n);
        let r0 = removed_of(slots, keep, m);
        let r1 = removed_of(slots, keep, n);
        assert forall|i: int| 0 <= i < n && keep[i] implies k1.contains(#[trigger] slots[i]) by {
            if i < m {
                let j = choose|j: int| 0 <= j < k0.len() && k0[j] == slots[i];
                assert(k1[j] == slots[i]);
            } else {
                assert(k1[k1.len() - 1] == slots[i]);
            }
        }
        assert forall|slot: Slot<T>| #[trigger] k1.contains(slot) implies exists|i: int|
            0 <= i < n && keep[i] && slots[i] == slot by {
            let j = choose|j: int| 0 <= j < k1.len() && k1[j] == slot;
            if j < k0.len() {
                assert(k0[j] == slot);
                assert(k0.contains(slot));
            } else {
                assert(keep[m as int] && slots[m as int] == slot);
            }
        }
        assert forall|i: int| 0 <= i < n && !keep[i] implies r1.contains(
            (#[trigger] slots[i]).resource,
        ) by {
            if i < m {
                let j = choose|j: int| 0 <= j < r0.len() && r0[j] == slots[i].resource;
                assert(r1[j] == slots[i].resource);
            } else {
                assert(r1[r1.len() - 1] == slots[i].resource);
            }
        }
        assert forall|resource: T| #[trigger] r1.contains(resource) implies exists|i: int|
            0 <= i < n && !keep[i] && slots[i].resource == resource by {
            let j = choose|j: int| 0 <= j < r1.len() && r1[j] == resource;
            if j < r0.len() {
                assert(r0[j] == resource);
                assert(r0.contains(resource));
            } else {
                assert(!keep[m as int] && slots[m as int].resource == resource);
            }
        }
    }
}

/// A slot that leaves the pool for good is never idle again, and is counted
/// out once.
///
/// The idle slots stay as they are. Where nobody waits, the live slots are
/// one fewer. Where somebody does and the ceiling then leaves room, the room
/// goes to the caller that has waited longest, so that the live slots are as
/// many as before.
pub proof fn lemma_detach_counts_once<T>(s: PoolView<T>)
    requires
        s.wf(),
        s.loaned() > 0,
    ensures
        s.after_detach().idle == s.idle,
        s.waiters.len() == 0 ==> s.after_detach().total == s.total - 1 && s.detach_wake() is None,
        s.detach_wake() is None ==> s.after_detach().total == s.total - 1 && s.after_detach().waiters
            == s.waiters,
        s.detach_wake() matches Some(waiter) ==> waiter == s.waiters[0] && s.after_detach().total
            == s.total && s.after_detach().waiters == s.waiters.drop_first(),
{
}

/// Nothing that was not on loan can be counted out: without a loan, a
/// departure leaves the pool as it is.
pub proof fn lemma_detach_needs_loan<T>(s: PoolView<T>)
    requires
        s.wf(),
        s.loaned() == 0,
    ensures
        s.after_detach() == s,
        s.detach_wake() is None,
{
}

} // verus!
