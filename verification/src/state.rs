//! The pool's bookkeeping: live slots, idle slots, waiting callers.

use vstd::prelude::*;
use crate::metrics::Metrics;
use crate::model::{
    kept_of, lemma_push_distinct, lemma_remove_distinct, lemma_sift_partitions, lemma_sift_prefix,
    lemma_suffix_distinct, removed_of, verdicts_of, PoolView,
};

verus! {

/// One pooled resource together with its usage record.
#[derive(Debug, PartialEq, Eq)]
pub struct Slot<T> {
    /// The resource itself.
    pub resource: T,
    /// Its usage record.
    pub metrics: Metrics,
}

/// What the caller of [`PoolState::acquire`] has to do next.
#[derive(Debug, PartialEq, Eq)]
pub enum Acquire<T> {
    /// The pool is closed: fail.
    Closed,
    /// Recycle this slot, then report how that went.
    Recycle(Slot<T>),
    /// Create a resource, then report how that went. Room for it is reserved.
    Create,
    /// The pool is exhausted: the caller is queued and suspends.
    Wait,
}

/// What became of a slot given to [`PoolState::release`].
#[derive(Debug, PartialEq, Eq)]
pub enum Release<T> {
    /// It is idle again.
    Idle,
    /// It goes to the caller that has waited longest, which is no longer
    /// queued and recycles it as if it had found it idle.
    Handoff { waiter: u64, slot: Slot<T> },
    /// It has left the pool and is handed back for teardown.
    Detach(Slot<T>),
}

/// How an operation on a resource ended that ran under a time limit.
#[derive(Debug, PartialEq, Eq)]
pub enum Outcome<R, E> {
    /// It finished, with this result.
    Done(R),
    /// It reported this failure.
    Failed(E),
    /// The time limit passed first.
    TimedOut,
}

/// The phase of a request in which a time limit passed.
#[derive(Clone, Copy, Debug, PartialEq, Eq, Structural)]
pub enum TimeoutType {
    /// Waiting for a slot.
    Wait,
    /// Creating a resource.
    Create,
    /// Recycling a resource. No request fails in this phase: a recycle that
    /// runs out of time costs the slot, and the request goes on.
    Recycle,
}

/// Why a request for a slot failed.
#[derive(Debug, PartialEq, Eq)]
pub enum PoolError<E> {
    /// A time limit passed.
    Timeout(TimeoutType),
    /// The resource manager reported a failure.
    Backend(E),
    /// The pool is closed.
    Closed,
}

/// How a creation ended, as [`PoolState::finish_create`] sees it.
#[derive(Debug, PartialEq, Eq)]
pub struct Created<T, E> {
    /// The new slot, or the error that the request fails with.
    pub result: Result<Slot<T>, PoolError<E>>,
    /// The waiting caller that may now create in its turn, if any. It is no
    /// longer queued.
    pub wake: Option<u64>,
}

/// How a recycle ended, as [`PoolState::finish_recycle`] sees it.
#[derive(Debug, PartialEq, Eq)]
pub enum Recycled<T> {
    /// The slot is fit for use: lend it.
    Ready(Slot<T>),
    /// The slot has left the pool and is handed back for teardown; the caller
    /// goes on with `next`.
    Retry { discarded: Slot<T>, next: Acquire<T> },
}

/// What [`PoolState::close`] cleared out.
#[derive(Debug, PartialEq, Eq)]
pub struct Shutdown<T> {
    /// The slots that were idle, handed back for teardown.
    pub detached: Vec<Slot<T>>,
    /// The callers that were waiting, longest wait first. Their requests fail.
    pub refused: Vec<u64>,
}

/// What [`PoolState::resize`] set in motion.
#[derive(Debug, PartialEq, Eq)]
pub struct Resized<T> {
    /// The idle slots that the new ceiling evicted, handed back for teardown.
    pub detached: Vec<Slot<T>>,
    /// The callers that the new ceiling lets in, longest wait first. Each may
    /// create a resource and is no longer queued.
    pub admitted: Vec<u64>,
}

/// What [`PoolState::retain`] did.
#[derive(Debug, PartialEq, Eq)]
pub struct RetainResult<T> {
    /// Number of idle slots that stay.
    pub retained: usize,
    /// The resources of the slots that were removed, in the order in which
    /// they had come back.
    pub removed: Vec<T>,
}

/// A snapshot of the pool's counts.
#[derive(Clone, Copy, Debug, PartialEq, Eq, Structural)]
pub struct Status {
    /// Live slots.
    pub size: usize,
    /// Idle slots.
    pub available: usize,
    /// Suspended callers.
    pub waiting: usize,
}

/// The bookkeeping of one pool.
///
/// Callers are told apart by a number of their own choosing, which has to be
/// theirs alone for as long as a request of theirs is under way. A request
/// starts with [`PoolState::acquire`] and goes on as the answers say, until a
/// slot is ready or the request has failed. A slot that is ready is on loan
/// until it is given back with [`PoolState::release`] or its resource is taken
/// out, which [`PoolState::detach`] reports.
#[derive(Debug)]
pub struct PoolState<T> {
    capacity: usize,
    total: usize,
    idle: Vec<Slot<T>>,
    waiters: Vec<u64>,
    closed: bool,
}

impl<T> View for PoolState<T> {
    type V = PoolView<T>;

    closed spec fn view(&self) -> PoolView<T> {
        PoolView {
            capacity: self.capacity as nat,
            total: self.total as nat,
            idle: self.idle@,
            waiters: self.waiters@,
            closed: self.closed,
        }
    }
}

/// The place of `x` in `v`, if it occurs.
fn position(v: &Vec<u64>, x: u64) -> (r: Option<usize>)
    ensures
        match r {
            Some(i) => i < v.len() && v[i as int] == x,
            None => !v@.contains(x),
        },
{
    let mut i: usize = 0;
    while i < v.len()
        invariant
            i <= v.len(),
            forall|j: int| 0 <= j < i ==> v[j] != x,
        decreases v.len() - i,
    {
        if v[i] == x {
            return Some(i);
        }
        i = i + 1;
    }
    None
}

impl<T> PoolState<T> {
    /// Whether the bookkeeping is consistent.
    pub open spec fn wf(&self) -> bool {
        self@.wf()
    }

    /// An empty pool that holds at most `capacity` slots.
    pub fn new(capacity: usize) -> (s: Self)
        ensures
            s.wf(),
            s@ == PoolView::<T>::new(capacity as nat),
    {
        PoolState { capacity, total: 0, idle: Vec::new(), waiters: Vec::new(), closed: false }
    }

    /// The ceiling on the number of live slots.
    pub fn max_size(&self) -> (n: usize)
        ensures
            n == self@.capacity,
    {
        self.capacity
    }

    /// Whether the pool has been closed.
    pub fn is_closed(&self) -> (b: bool)
        ensures
            b == self@.closed,
    {
        self.closed
    }

    /// The counts at this moment.
    pub fn status(&self) -> (st: Status)
        ensures
            st.size == self@.total,
            st.available == self@.idle.len(),
            st.waiting == self@.waiters.len(),
    {
        Status { size: self.total, available: self.idle.len(), waiting: self.waiters.len() }
    }

    /// A request for a slot by `caller`.
    ///
    /// On a closed pool it fails. Else the slot that came back last is taken
    /// out for recycling; else, while the ceiling leaves room, room is
    /// reserved for a new resource; else the caller joins the queue.
    pub fn acquire(&mut self, caller: u64) -> (step: Acquire<T>)
        requires
            old(self).wf(),
        ensures
            final(self).wf(),
            final(self)@ == old(self)@.after_acquire(caller),
            step == old(self)@.acquire_step(),
    {
        self.ask(caller)
    }

    /// What [`PoolState::acquire`] does, also between the two halves of a
    /// retry, where room may be free while callers wait.
    fn ask(&mut self, caller: u64) -> (step: Acquire<T>)
        requires
            old(self)@.waiters.no_duplicates(),
        ensures
            final(self)@ == old(self)@.after_acquire(caller),
            step == old(self)@.acquire_step(),
            final(self)@.waiters.no_duplicates(),
    {
        if self.closed {
            return Acquire::Closed;
        }
        match self.idle.pop() {
            Some(slot) => Acquire::Recycle(slot),
            None => {
                if self.total < self.capacity {
                    self.total = self.total + 1;
                    Acquire::Create
                } else {
                    if position(&self.waiters, caller).is_none() {
                        self.waiters.push(caller);
                        proof {
                            lemma_push_distinct(old(self).waiters@, caller);
                        }
                    }
                    Acquire::Wait
                }
            },
        }
    }

    /// Gives a slot back.
    ///
    /// On an open pool within its ceiling the slot goes to the caller that has
    /// waited longest or, where nobody waits, becomes idle. Otherwise it
    /// leaves the pool; so does a slot that was not on loan, which leaves the
    /// counts as they are.
    pub fn release(&mut self, slot: Slot<T>) -> (r: Release<T>)
        requires
            old(self).wf(),
        ensures
            final(self).wf(),
            final(self)@ == old(self)@.after_release(slot),
            r == old(self)@.release_result(slot),
    {
        if self.total <= self.idle.len() || self.closed || self.total > self.capacity {
            self.write_off();
            Release::Detach(slot)
        } else if self.waiters.len() > 0 {
            let waiter: u64 = self.waiters.remove(0);
            proof {
                lemma_remove_distinct(old(self).waiters@, 0);
            }
            Release::Handoff { waiter, slot }
        } else {
            self.idle.push(slot);
            Release::Idle
        }
    }

    /// Writes one loan off, if there is one.
    fn write_off(&mut self)
        requires
            old(self)@.idle.len() <= old(self)@.total,
        ensures
            final(self)@ == old(self)@.drop_loan(),
    {
        if self.total > self.idle.len() {
            self.total = self.total - 1;
        }
    }

    /// Lets the caller in that has waited longest, if the ceiling leaves room.
    fn admit_one(&mut self) -> (wake: Option<u64>)
        requires
            old(self)@.waiters.no_duplicates(),
        ensures
            wake == (if old(self)@.waiters.len() > 0 && old(self)@.total < old(self)@.capacity {
                Some(old(self)@.waiters[0])
            } else {
                None
            }),
            final(self)@ == (if old(self)@.waiters.len() > 0 && old(self)@.total < old(
                self,
            )@.capacity {
                PoolView {
                    total: old(self)@.total + 1,
                    waiters: old(self)@.waiters.drop_first(),
                    ..old(self)@
                }
            } else {
                old(self)@
            }),
    {
        if self.waiters.len() > 0 && self.total < self.capacity {
            let waiter: u64 = self.waiters.remove(0);
            self.total = self.total + 1;
            Some(waiter)
        } else {
            None
        }
    }

    /// Reports that a slot on loan has left the pool for good: its resource
    /// was taken out, or never came to be.
    ///
    /// Returns the waiting caller that may now create a resource in its turn.
    pub fn detach(&mut self) -> (wake: Option<u64>)
        requires
            old(self).wf(),
        ensures
            final(self).wf(),
            final(self)@ == old(self)@.after_detach(),
            wake == old(self)@.detach_wake(),
    {
        self.write_off();
        let wake = self.admit_one();
        proof {
            if wake is Some {
                lemma_remove_distinct(old(self).waiters@, 0);
            }
        }
        wake
    }

    /// Reports how the creation ended that [`Acquire::Create`] asked for.
    ///
    /// A resource that came to be is wrapped with a fresh record and is ready
    /// to lend. Otherwise the reserved room is given up, which may let a
    /// waiting caller in, and the request fails: with the manager's error, or
    /// with a timeout in the creation phase.
    pub fn finish_create<E>(&mut self, outcome: Outcome<T, E>, now: u64) -> (r: Created<T, E>)
        requires
            old(self).wf(),
        ensures
            final(self).wf(),
            match outcome {
                Outcome::Done(resource) => {
                    &&& final(self)@ == old(self)@
                    &&& r.result == Ok::<Slot<T>, PoolError<E>>(
                        Slot { resource, metrics: Metrics { created: now, recycled: None, recycle_count: 0 } },
                    )
                    &&& r.wake is None
                },
                Outcome::Failed(e) => {
                    &&& final(self)@ == old(self)@.after_detach()
                    &&& r.result == Err::<Slot<T>, PoolError<E>>(PoolError::Backend(e))
                    &&& r.wake == old(self)@.detach_wake()
                },
                Outcome::TimedOut => {
                    &&& final(self)@ == old(self)@.after_detach()
                    &&& r.result == Err::<Slot<T>, PoolError<E>>(
                        PoolError::Timeout(TimeoutType::Create),
                    )
                    &&& r.wake == old(self)@.detach_wake()
                },
            },
    {
        match outcome {
            Outcome::Done(resource) => Created {
                result: Ok(Slot { resource, metrics: Metrics::new(now) }),
                wake: None,
            },
            Outcome::Failed(e) => {
                let wake = self.detach();
                Created { result: Err(PoolError::Backend(e)), wake }
            },
            Outcome::TimedOut => {
                let wake = self.detach();
                Created { result: Err(PoolError::Timeout(TimeoutType::Create)), wake }
            },
        }
    }

    /// Reports how the recycle of `slot` by `caller` ended.
    ///
    /// A slot that passed has its record updated and is ready to lend. One
    /// that failed, or whose recycle ran out of time, leaves the pool, and
    /// the caller asks again without queueing behind anyone.
    pub fn finish_recycle<E>(
        &mut self,
        caller: u64,
        slot: Slot<T>,
        outcome: Outcome<(), E>,
        now: u64,
    ) -> (r: Recycled<T>)
        requires
            old(self).wf(),
        ensures
            final(self).wf(),
            outcome is Done ==> final(self)@ == old(self)@ && r == Recycled::Ready(
                Slot { resource: slot.resource, metrics: slot.metrics.after_recycle(now) },
            ),
            !(outcome is Done) ==> final(self)@ == old(self)@.after_retry(caller) && r == (
            Recycled::Retry { discarded: slot, next: old(self)@.retry_step() }),
    {
        match outcome {
            Outcome::Done(_) => {
                let mut slot = slot;
                slot.metrics.mark_recycled(now);
                Recycled::Ready(slot)
            },
            _ => {
                self.write_off();
                let next = self.ask(caller);
                Recycled::Retry { discarded: slot, next }
            },
        }
    }

    /// Withdraws `caller` from the queue, as when its wait ran out of time.
    ///
    /// Returns whether it was queued. A caller that is not has been let in or
    /// handed a slot in the meantime.
    pub fn cancel_wait(&mut self, caller: u64) -> (was_queued: bool)
        requires
            old(self).wf(),
        ensures
            final(self).wf(),
            final(self)@ == old(self)@.after_cancel(caller),
            was_queued == old(self)@.waiters.contains(caller),
    {
        match position(&self.waiters, caller) {
            Some(i) => {
                proof {
                    let j = self.waiters@.index_of(caller);
                    assert(self.waiters@[i as int] == caller);
                    assert(self.waiters@.contains(caller));
                    assert(self.waiters@[j] == caller);
                    lemma_remove_distinct(self.waiters@, i as int);
                }
                let _ = self.waiters.remove(i);
                true
            },
            None => false,
        }
    }

    /// Closes the pool, for good.
    ///
    /// Idle slots leave the pool and waiting callers are refused; every later
    /// request fails. Slots on loan stay counted until they are given back.
    pub fn close(&mut self) -> (r: Shutdown<T>)
        requires
            old(self).wf(),
        ensures
            final(self).wf(),
            final(self)@ == old(self)@.after_close(),
            r.detached@ == old(self)@.idle,
            r.refused@ == old(self)@.waiters,
    {
        let mut detached: Vec<Slot<T>> = Vec::new();
        let mut refused: Vec<u64> = Vec::new();
        core::mem::swap(&mut self.idle, &mut detached);
        core::mem::swap(&mut self.waiters, &mut refused);
        self.total = self.total - detached.len();
        self.closed = true;
        Shutdown { detached, refused }
    }

    /// Sets the ceiling to `capacity`.
    ///
    /// Slots on loan are left alone, also where they exceed the new ceiling:
    /// they leave the pool as they are given back. Idle slots beyond it are
    /// evicted at once, the ones that have lain longest first. Where the new
    /// ceiling leaves room, the callers that have waited longest are let in.
    pub fn resize(&mut self, capacity: usize) -> (r: Resized<T>)
        requires
            old(self).wf(),
        ensures
            final(self).wf(),
            final(self)@ == old(self)@.after_resize(capacity as nat),
            r.detached@ == old(self)@.idle.subrange(
                0,
                old(self)@.evicted_by(capacity as nat) as int,
            ),
            r.admitted@ == old(self)@.waiters.subrange(
                0,
                old(self)@.admitted_by(capacity as nat) as int,
            ),
    {
        self.capacity = capacity;
        let mut detached: Vec<Slot<T>> = Vec::new();
        if self.total > capacity {
            let excess: usize = self.total - capacity;
            let k: usize = if excess <= self.idle.len() {
                excess
            } else {
                self.idle.len()
            };
            let mut rest = self.idle.split_off(k);
            core::mem::swap(&mut self.idle, &mut rest);
            detached = rest;
            self.total = self.total - k;
        }
        let mut admitted: Vec<u64> = Vec::new();
        if self.total < capacity {
            let room: usize = capacity - self.total;
            let m: usize = if room <= self.waiters.len() {
                room
            } else {
                self.waiters.len()
            };
            let mut rest = self.waiters.split_off(m);
            core::mem::swap(&mut self.waiters, &mut rest);
            admitted = rest;
            self.total = self.total + m;
        }
        proof {
            let m = old(self)@.admitted_by(capacity as nat);
            lemma_suffix_distinct(old(self).waiters@, m as int);
            assert(detached@ =~= old(self)@.idle.subrange(
                0,
                old(self)@.evicted_by(capacity as nat) as int,
            ));
            assert(admitted@ =~= old(self)@.waiters.subrange(0, m as int));
            assert(self@ =~= old(self)@.after_resize(capacity as nat));
        }
        Resized { detached, admitted }
    }

    /// Sifts the idle slots: those that `predicate` rejects leave the pool.
    ///
    /// Slots on loan are not looked at. The resources of the removed slots
    /// are handed back, for teardown or for whatever the caller likes.
    pub fn retain<F: Fn(&T, &Metrics) -> bool>(&mut self, predicate: F) -> (r: RetainResult<T>)
        requires
            old(self).wf(),
            forall|resource: &T, metrics: &Metrics| predicate.requires((resource, metrics)),
        ensures
            final(self).wf(),
            exists|keep: Seq<bool>|
                {
                    &&& #[trigger] verdicts_of(predicate, old(self)@.idle, keep)
                    &&& final(self)@ == old(self)@.after_retain(keep)
                    &&& r.removed@ == removed_of(old(self)@.idle, keep, old(self)@.idle.len())
                },
            r.retained == final(self)@.idle.len(),
            r.retained + r.removed@.len() == old(self)@.idle.len(),
            final(self)@.loaned() == old(self)@.loaned(),
    {
        let ghost slots = self.idle@;
        let ghost mut keep: Seq<bool> = Seq::empty();
        let mut removed: Vec<T> = Vec::new();
        let mut i: usize = 0;
        while i < self.idle.len()
            invariant
                forall|resource: &T, metrics: &Metrics| predicate.requires((resource, metrics)),
                slots == old(self)@.idle,
                slots.len() <= old(self)@.total,
                keep.len() == i + removed@.len(),
                keep.len() <= slots.len(),
                forall|j: int|
                    0 <= j < keep.len() ==> predicate.ensures(
                        (&slots[j].resource, &slots[j].metrics),
                        #[trigger] keep[j],
                    ),
                self.idle@ == kept_of(slots, keep, keep.len()) + slots.subrange(
                    keep.len() as int,
                    slots.len() as int,
                ),
                i == kept_of(slots, keep, keep.len()).len(),
                removed@ == removed_of(slots, keep, keep.len()),
                self.total == old(self)@.total - removed@.len(),
                self.capacity == old(self).capacity,
                self.waiters == old(self).waiters,
                self.closed == old(self).closed,
            decreases slots.len() - keep.len(),
        {
            let ghost before = keep;
            let ghost n = keep.len();
            assert(self.idle@[i as int] == slots[n as int]);
            let stays = predicate(&self.idle[i].resource, &self.idle[i].metrics);
            proof {
                keep = keep.push(stays);
                lemma_sift_prefix(slots, keep, before, n);
                lemma_sift_partitions(slots, keep, n);
            }
            if stays {
                i = i + 1;
            } else {
                let slot = self.idle.remove(i);
                removed.push(slot.resource);
                self.total = self.total - 1;
            }
            assert(self.idle@ =~= kept_of(slots, keep, keep.len()) + slots.subrange(
                keep.len() as int,
                slots.len() as int,
            ));
        }
        proof {
            lemma_sift_partitions(slots, keep, slots.len());
            assert(self.idle@ =~= kept_of(slots, keep, slots.len()));
            assert(self@ =~= old(self)@.after_retain(keep));
            assert(verdicts_of(predicate, old(self)@.idle, keep));
        }
        RetainResult { retained: i, removed }
    }
}

} // verus!
