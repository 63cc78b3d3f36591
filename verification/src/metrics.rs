//! Per-slot bookkeeping: when a resource was created, when it was last
//! recycled, and how often.

use vstd::prelude::*;

verus! {

/// Usage record of one pooled resource. Timestamps are readings of a
/// monotonic clock, in ticks of the caller's choosing.
#[derive(Clone, Copy, Debug, PartialEq, Eq, Structural)]
pub struct Metrics {
    /// Clock reading at which the resource was created.
    pub created: u64,
    /// Clock reading of the latest successful recycle, if there was one.
    pub recycled: Option<u64>,
    /// Number of successful recycles.
    pub recycle_count: usize,
}

impl Metrics {
    /// Ticks from `since` to `now`; zero when `now` lies before `since`.
    pub open spec fn elapsed(since: u64, now: u64) -> int {
        if now >= since {
            now - since
        } else {
            0
        }
    }

    /// Age of the resource at `now`.
    pub open spec fn age_at(self, now: u64) -> int {
        Self::elapsed(self.created, now)
    }

    /// The reading from which idleness is counted: the latest recycle, or the
    /// creation where the resource was never recycled.
    pub open spec fn last_touched(self) -> u64 {
        match self.recycled {
            Some(t) => t,
            None => self.created,
        }
    }

    /// Ticks at `now` since the resource was last recycled or, failing that,
    /// created.
    pub open spec fn idle_at(self, now: u64) -> int {
        Self::elapsed(self.last_touched(), now)
    }

    /// The record after one more successful recycle at `now`. The count stops
    /// at the largest value it can hold.
    pub open spec fn after_recycle(self, now: u64) -> Metrics {
        Metrics {
            created: self.created,
            recycled: Some(now),
            recycle_count: if self.recycle_count < usize::MAX {
                (self.recycle_count + 1) as usize
            } else {
                self.recycle_count
            },
        }
    }

    /// The record of a resource created at `now` and never recycled.
    pub fn new(now: u64) -> (m: Metrics)
        ensures
            m == (Metrics { created: now, recycled: None, recycle_count: 0 }),
    {
        Metrics { created: now, recycled: None, recycle_count: 0 }
    }

    /// Age of the resource at `now`.
    pub fn age(&self, now: u64) -> (d: u64)
        ensures
            d == self.age_at(now),
    {
        if now >= self.created {
            now - self.created
        } else {
            0
        }
    }

    /// Ticks at `now` since the last recycle or, failing that, the creation.
    pub fn last_used(&self, now: u64) -> (d: u64)
        ensures
            d == self.idle_at(now),
    {
        let since: u64 = match self.recycled {
            Some(t) => t,
            None => self.created,
        };
        if now >= since {
            now - since
        } else {
            0
        }
    }

    /// Records a successful recycle at `now`.
    pub fn mark_recycled(&mut self, now: u64)
        ensures
            *final(self) == old(self).after_recycle(now),
    {
        self.recycled = Some(now);
        if self.recycle_count < usize::MAX {
            self.recycle_count = self.recycle_count + 1;
        }
    }
}

} // verus!
