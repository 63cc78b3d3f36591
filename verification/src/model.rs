//! The pool's bookkeeping as a mathematical state machine.
//!
//! Every operation of [`crate::state::PoolState`] is specified by a pair of
//! functions here: the state after it, and what it hands back.

use vstd::prelude::*;
use crate::metrics::Metrics;
use crate::state::{Acquire, Release, Slot};

verus! {

/// What the bookkeeping of a pool amounts to.
#[verifier::ext_equal]
pub struct PoolView<T> {
    /// Ceiling on the number of live slots.
    pub capacity: nat,
    /// Live slots: idle ones, ones on loan, ones being created or recycled.
    pub total: nat,
    /// Idle slots in the order they came back; the last is handed out first.
    pub idle: Seq<Slot<T>>,
    /// Suspended callers, the one that has waited longest first.
    pub waiters: Seq<u64>,
    /// Whether the pool has been closed.
    pub closed: bool,
}

impl<T> PoolView<T> {
    /// A fresh pool: nothing created, nobody waiting.
    pub open spec fn new(capacity: nat) -> Self {
        PoolView {
            capacity,
            total: 0,
            idle: Seq::empty(),
            waiters: Seq::empty(),
            closed: false,
        }
    }

    /// Slots that are live but not idle.
    pub open spec fn loaned(self) -> nat {
        if self.total >= self.idle.len() {
            (self.total - self.idle.len()) as nat
        } else {
            0
        }
    }

    /// The invariant of the bookkeeping.
    ///
    /// Idle slots are live slots. The ceiling can only be exceeded by slots on
    /// loan (after it was lowered). Nobody waits twice, and nobody waits while
    /// a slot is idle or the ceiling leaves room. A closed pool keeps neither
    /// idle slots nor waiters.
    pub open spec fn wf(self) -> bool {
        &&& self.idle.len() <= self.total
        &&& (self.total > self.capacity ==> self.idle.len() == 0)
        &&& self.waiters.no_duplicates()
        &&& (self.waiters.len() > 0 ==> self.idle.len() == 0 && self.total >= self.capacity)
        &&& (self.closed ==> self.idle.len() == 0 && self.waiters.len() == 0)
    }

    /// The queue after `caller` has joined it; a caller already queued keeps
    /// its place.
    pub open spec fn enqueue(self, caller: u64) -> Seq<u64> {
        if self.waiters.contains(caller) {
            self.waiters
        } else {
            self.waiters.push(caller)
        }
    }

    /// The state with one loan written off, if there is one.
    pub open spec fn drop_loan(self) -> Self {
        if self.loaned() > 0 {
            PoolView { total: (self.total - 1) as nat, ..self }
        } else {
            self
        }
    }

    /// What a request is told: fail on a closed pool, else recycle the slot
    /// that came back last, else create while the ceiling leaves room, else
    /// wait.
    pub open spec fn acquire_step(self) -> Acquire<T> {
        if self.closed {
            Acquire::Closed
        } else if self.idle.len() > 0 {
            Acquire::Recycle(self.idle.last())
        } else if self.total < self.capacity {
            Acquire::Create
        } else {
            Acquire::Wait
        }
    }

    /// The state after a request by `caller`.
    pub open spec fn after_acquire(self, caller: u64) -> Self {
        if self.closed {
            self
        } else if self.idle.len() > 0 {
            PoolView { idle: self.idle.drop_last(), ..self }
        } else if self.total < self.capacity {
            PoolView { total: self.total + 1, ..self }
        } else {
            PoolView { waiters: self.enqueue(caller), ..self }
        }
    }

    /// Whether a slot that is given back leaves the pool: it was not on loan,
    /// the pool is closed, or the ceiling is exceeded.
    pub open spec fn release_detaches(self) -> bool {
        self.loaned() == 0 || self.closed || self.total > self.capacity
    }

    /// What becomes of a slot that is given back.
    pub open spec fn release_result(self, slot: Slot<T>) -> Release<T> {
        if self.release_detaches() {
            Release::Detach(slot)
        } else if self.waiters.len() > 0 {
            Release::Handoff { waiter: self.waiters[0], slot }
        } else {
            Release::Idle
        }
    }

    /// The state after a slot was given back.
    pub open spec fn after_release(self, slot: Slot<T>) -> Self {
        if self.release_detaches() {
            self.drop_loan()
        } else if self.waiters.len() > 0 {
            PoolView { waiters: self.waiters.drop_first(), ..self }
        } else {
            PoolView { idle: self.idle.push(slot), ..self }
        }
    }

    /// The caller that is let in when a loan is written off: the one that has
    /// waited longest, provided that the ceiling then leaves room.
    pub open spec fn detach_wake(self) -> Option<u64> {
        let s = self.drop_loan();
        if s.waiters.len() > 0 && s.total < s.capacity {
            Some(s.waiters[0])
        } else {
            None
        }
    }

    /// The state after a slot on loan has left the pool for good. Where a
    /// caller is let in, the room that opened is reserved for it at once.
    pub open spec fn after_detach(self) -> Self {
        let s = self.drop_loan();
        if s.waiters.len() > 0 && s.total < s.capacity {
            PoolView { total: s.total + 1, waiters: s.waiters.drop_first(), ..s }
        } else {
            s
        }
    }

    /// What a caller is told whose recycle failed: its slot is written off and
    /// it asks again, ahead of everyone who is waiting.
    pub open spec fn retry_step(self) -> Acquire<T> {
        self.drop_loan().acquire_step()
    }

    /// The state after a recycle by `caller` failed.
    pub open spec fn after_retry(self, caller: u64) -> Self {
        self.drop_loan().after_acquire(caller)
    }

    /// The state after `caller` gave up waiting. The others keep their order.
    pub open spec fn after_cancel(self, caller: u64) -> Self {
        if self.waiters.contains(caller) {
            PoolView { waiters: self.waiters.remove(self.waiters.index_of(caller)), ..self }
        } else {
            self
        }
    }

    /// The state after the pool was closed: idle slots and waiting callers are
    /// gone, slots on loan remain until they are given back.
    pub open spec fn after_close(self) -> Self {
        PoolView {
            capacity: self.capacity,
            total: self.loaned(),
            idle: Seq::empty(),
            waiters: Seq::empty(),
            closed: true,
        }
    }

    /// How many idle slots a ceiling of `capacity` evicts: as many as exceed
    /// it, as far as idle slots go.
    pub open spec fn evicted_by(self, capacity: nat) -> nat {
        if self.total <= capacity {
            0
        } else if self.total - capacity <= self.idle.len() {
            (self.total - capacity) as nat
        } else {
            self.idle.len()
        }
    }

    /// How many waiting callers a ceiling of `capacity` lets in: as many as it
    /// leaves room for, as far as waiting callers go.
    pub open spec fn admitted_by(self, capacity: nat) -> nat {
        let live = self.total - self.evicted_by(capacity);
        if live >= capacity {
            0
        } else if capacity - live <= self.waiters.len() {
            (capacity - live) as nat
        } else {
            self.waiters.len()
        }
    }

    /// The state after the ceiling was set to `capacity`. The idle slots that
    /// have lain longest are evicted; the callers that have waited longest are
    /// let in, with room reserved for each.
    pub open spec fn after_resize(self, capacity: nat) -> Self {
        let k = self.evicted_by(capacity);
        let m = self.admitted_by(capacity);
        PoolView {
            capacity,
            total: (self.total - k + m) as nat,
            idle: self.idle.subrange(k as int, self.idle.len() as int),
            waiters: self.waiters.subrange(m as int, self.waiters.len() as int),
            closed: self.closed,
        }
    }

    /// The state after the idle slots were sifted with the verdicts `keep`,
    /// one for each idle slot.
    pub open spec fn after_retain(self, keep: Seq<bool>) -> Self {
        let kept = kept_of(self.idle, keep, self.idle.len());
        PoolView { total: (self.total - (self.idle.len() - kept.len())) as nat, idle: kept, ..self }
    }
}

/// Those of the first `n` slots whose verdict is to keep them, in order.
pub open spec fn kept_of<T>(slots: Seq<Slot<T>>, keep: Seq<bool>, n: nat) -> Seq<Slot<T>>
    decreases n,
{
    if n == 0 {
        Seq::empty()
    } else if keep[n - 1] {
        kept_of(slots, keep, (n - 1) as nat).push(slots[n - 1])
    } else {
        kept_of(slots, keep, (n - 1) as nat)
    }
}

/// The resources of those of the first `n` slots whose verdict is to remove
/// them, in order.
pub open spec fn removed_of<T>(slots: Seq<Slot<T>>, keep: Seq<bool>, n: nat) -> Seq<T>
    decreases n,
{
    if n == 0 {
        Seq::empty()
    } else if keep[n - 1] {
        removed_of(slots, keep, (n - 1) as nat)
    } else {
        removed_of(slots, keep, (n - 1) as nat).push(slots[n - 1].resource)
    }
}

/// Whether `keep` holds, for each slot, a verdict that `predicate` can give
/// on it.
pub open spec fn verdicts_of<T, F: Fn(&T, &Metrics) -> bool>(
    predicate: F,
    slots: Seq<Slot<T>>,
    keep: Seq<bool>,
) -> bool {
    &&& keep.len() == slots.len()
    &&& forall|i: int|
        0 <= i < slots.len() ==> predicate.ensures(
            (&slots[i].resource, &slots[i].metrics),
            #[trigger] keep[i],
        )
}

/// Every slot is either kept or removed.
pub proof fn lemma_sift_partitions<T>(slots: Seq<Slot<T>>, keep: Seq<bool>, n: nat)
    ensures
        kept_of(slots, keep, n).len() + removed_of(slots, keep, n).len() == n,
    decreases n,
{
    if n > 0 {
        lemma_sift_partitions(slots, keep, (n - 1) as nat);
    }
}

/// Verdicts beyond the first `n` do not matter to the first `n` slots.
pub proof fn lemma_sift_prefix<T>(slots: Seq<Slot<T>>, keep: Seq<bool>, other: Seq<bool>, n: nat)
    requires
        forall|i: int| 0 <= i < n ==> keep[i] == other[i],
    ensures
        kept_of(slots, keep, n) == kept_of(slots, other, n),
        removed_of(slots, keep, n) == removed_of(slots, other, n),
    decreases n,
{
    if n > 0 {
        lemma_sift_prefix(slots, keep, other, (n - 1) as nat);
    }
}

/// Appending a value that does not occur keeps a sequence free of duplicates.
pub proof fn lemma_push_distinct(q: Seq<u64>, x: u64)
    requires
        q.no_duplicates(),
        !q.contains(x),
    ensures
        q.push(x).no_duplicates(),
{
    let r = q.push(x);
    assert forall|a: int, b: int| 0 <= a < r.len() && 0 <= b < r.len() && a != b implies r[a]
        != r[b] by {
        if a < q.len() && b < q.len() {
        } else if a < q.len() {
            assert(q.contains(q[a]));
        } else {
            assert(q.contains(q[b]));
        }
    }
}

/// Taking one element out keeps a sequence free of duplicates.
pub proof fn lemma_remove_distinct(q: Seq<u64>, i: int)
    requires
        q.no_duplicates(),
        0 <= i < q.len(),
    ensures
        q.remove(i).no_duplicates(),
        q.remove(0) == q.drop_first(),
{
    assert(q.remove(0) =~= q.drop_first());
    let r = q.remove(i);
    assert forall|a: int, b: int| 0 <= a < r.len() && 0 <= b < r.len() && a != b implies r[a]
        != r[b] by {
        let a0 = if a < i { a } else { a + 1 };
        let b0 = if b < i { b } else { b + 1 };
        assert(r[a] == q[a0]);
        assert(r[b] == q[b0]);
    }
}

/// What is left of a duplicate-free queue when its head leaves has no
/// duplicates and does not hold the head.
pub proof fn lemma_drop_first_distinct(q: Seq<u64>)
    requires
        q.no_duplicates(),
        q.len() > 0,
    ensures
        q.drop_first().no_duplicates(),
        !q.drop_first().contains(q[0]),
{
    let r = q.drop_first();
    assert forall|a: int, b: int| 0 <= a < r.len() && 0 <= b < r.len() && a != b implies r[a]
        != r[b] by {
        assert(r[a] == q[a + 1]);
        assert(r[b] == q[b + 1]);
    }
    if r.contains(q[0]) {
        let i = choose|i: int| 0 <= i < r.len() && r[i] == q[0];
        assert(r[i] == q[i + 1]);
    }
}

/// Cutting the front off keeps a sequence free of duplicates.
pub proof fn lemma_suffix_distinct(q: Seq<u64>, m: int)
    requires
        q.no_duplicates(),
        0 <= m <= q.len(),
    ensures
        q.subrange(m, q.len() as int).no_duplicates(),
{
    let r = q.subrange(m, q.len() as int);
    assert forall|a: int, b: int| 0 <= a < r.len() && 0 <= b < r.len() && a != b implies r[a]
        != r[b] by {
        assert(r[a] == q[a + m]);
        assert(r[b] == q[b + m]);
    }
}

} // verus!
