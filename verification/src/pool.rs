//! Setting a pool up: its ceiling, its time limits, its runtime.

use core::marker::PhantomData;
use core::time::Duration;
use vstd::prelude::*;
use crate::model::PoolView;
use crate::state::PoolState;

verus! {

/// Time limits for the three phases of a request. A phase without one may
/// take as long as it takes.
#[derive(Clone, Copy, Debug)]
pub struct Timeouts {
    /// Limit on waiting for a slot.
    pub wait: Option<Duration>,
    /// Limit on creating a resource.
    pub create: Option<Duration>,
    /// Limit on recycling a resource.
    pub recycle: Option<Duration>,
}

impl Timeouts {
    /// Whether any phase has a limit.
    pub open spec fn any(self) -> bool {
        self.wait is Some || self.create is Some || self.recycle is Some
    }

    /// No limit on any phase.
    pub fn new() -> (t: Timeouts)
        ensures
            t == (Timeouts { wait: None, create: None, recycle: None }),
    {
        Timeouts { wait: None, create: None, recycle: None }
    }

    /// Whether any phase has a limit.
    pub fn is_limited(&self) -> (b: bool)
        ensures
            b == self.any(),
    {
        self.wait.is_some() || self.create.is_some() || self.recycle.is_some()
    }
}

impl Default for Timeouts {
    fn default() -> (t: Timeouts)
        ensures
            t == (Timeouts { wait: None, create: None, recycle: None }),
    {
        Timeouts::new()
    }
}

/// The runtime that keeps time for a pool with time limits.
#[derive(Clone, Copy, Debug, PartialEq, Eq, Structural)]
pub enum Runtime {
    /// tokio 1.x
    Tokio1,
    /// async-std 1.x
    AsyncStd1,
}

/// The settings of a pool.
#[derive(Clone, Copy, Debug)]
pub struct PoolConfig {
    /// Ceiling on the number of live slots.
    pub max_size: usize,
    /// Time limits of a request.
    pub timeouts: Timeouts,
}

impl PoolConfig {
    /// Settings with the given ceiling and no time limits.
    pub fn new(max_size: usize) -> (c: PoolConfig)
        ensures
            c == (PoolConfig { max_size, timeouts: Timeouts { wait: None, create: None, recycle: None } }),
    {
        PoolConfig { max_size, timeouts: Timeouts::new() }
    }
}

impl Default for PoolConfig {
    /// No ceiling to speak of and no time limits.
    fn default() -> (c: PoolConfig)
        ensures
            c == (PoolConfig {
                max_size: usize::MAX,
                timeouts: Timeouts { wait: None, create: None, recycle: None },
            }),
    {
        PoolConfig::new(usize::MAX)
    }
}

/// Why a pool could not be built.
#[derive(Clone, Copy, Debug, PartialEq, Eq, Structural)]
pub enum BuildError {
    /// Time limits are set, and nothing is there to keep time.
    NoRuntimeSpecified,
}

/// A pool: the manager that makes and mends its resources, its time limits,
/// its runtime, and its bookkeeping.
#[derive(Debug)]
pub struct Pool<M, T> {
    /// What creates, recycles and tears down the resources.
    pub manager: M,
    /// Time limits of a request.
    pub timeouts: Timeouts,
    /// What keeps time, if anything.
    pub runtime: Option<Runtime>,
    /// Live slots, idle slots, waiting callers.
    pub state: PoolState<T>,
}

/// The settings of a pool in the making.
#[derive(Debug)]
pub struct PoolBuilder<M, T> {
    /// What creates, recycles and tears down the resources.
    pub manager: M,
    /// Ceiling and time limits.
    pub config: PoolConfig,
    /// What keeps time, if anything.
    pub runtime: Option<Runtime>,
    /// Stands for the kind of resource that the pool will hold.
    pub resource: PhantomData<T>,
}

impl<M, T> Pool<M, T> {
    /// Starts a pool around `manager`, with the default settings.
    pub fn builder(manager: M) -> (b: PoolBuilder<M, T>)
        ensures
            b.manager == manager,
            b.config == (PoolConfig {
                max_size: usize::MAX,
                timeouts: Timeouts { wait: None, create: None, recycle: None },
            }),
            b.runtime is None,
    {
        PoolBuilder { manager, config: PoolConfig::new(usize::MAX), runtime: None, resource: PhantomData }
    }
}

impl<M, T> PoolBuilder<M, T> {
    /// Whether a pool can be built: time limits need a runtime.
    pub open spec fn buildable(self) -> bool {
        self.config.timeouts.any() ==> self.runtime is Some
    }

    /// Replaces ceiling and time limits.
    pub fn config(self, config: PoolConfig) -> (b: Self)
        ensures
            b.manager == self.manager,
            b.config == config,
            b.runtime == self.runtime,
    {
        PoolBuilder { manager: self.manager, config, runtime: self.runtime, resource: PhantomData }
    }

    /// Sets the ceiling.
    pub fn max_size(self, max_size: usize) -> (b: Self)
        ensures
            b.manager == self.manager,
            b.config == (PoolConfig { max_size, timeouts: self.config.timeouts }),
            b.runtime == self.runtime,
    {
        PoolBuilder {
            manager: self.manager,
            config: PoolConfig { max_size, timeouts: self.config.timeouts },
            runtime: self.runtime,
            resource: PhantomData,
        }
    }

    /// Sets all three time limits.
    pub fn timeouts(self, timeouts: Timeouts) -> (b: Self)
        ensures
            b.manager == self.manager,
            b.config == (PoolConfig { max_size: self.config.max_size, timeouts }),
            b.runtime == self.runtime,
    {
        PoolBuilder {
            manager: self.manager,
            config: PoolConfig { max_size: self.config.max_size, timeouts },
            runtime: self.runtime,
            resource: PhantomData,
        }
    }

    /// Sets the limit on waiting for a slot.
    pub fn wait_timeout(self, limit: Option<Duration>) -> (b: Self)
        ensures
            b.manager == self.manager,
            b.config == (PoolConfig {
                max_size: self.config.max_size,
                timeouts: Timeouts { wait: limit, ..self.config.timeouts },
            }),
            b.runtime == self.runtime,
    {
        let timeouts = Timeouts {
            wait: limit,
            create: self.config.timeouts.create,
            recycle: self.config.timeouts.recycle,
        };
        self.timeouts(timeouts)
    }

    /// Sets the limit on creating a resource.
    pub fn create_timeout(self, limit: Option<Duration>) -> (b: Self)
        ensures
            b.manager == self.manager,
            b.config == (PoolConfig {
                max_size: self.config.max_size,
                timeouts: Timeouts { create: limit, ..self.config.timeouts },
            }),
            b.runtime == self.runtime,
    {
        let timeouts = Timeouts {
            wait: self.config.timeouts.wait,
            create: limit,
            recycle: self.config.timeouts.recycle,
        };
        self.timeouts(timeouts)
    }

    /// Sets the limit on recycling a resource.
    pub fn recycle_timeout(self, limit: Option<Duration>) -> (b: Self)
        ensures
            b.manager == self.manager,
            b.config == (PoolConfig {
                max_size: self.config.max_size,
                timeouts: Timeouts { recycle: limit, ..self.config.timeouts },
            }),
            b.runtime == self.runtime,
    {
        let timeouts = Timeouts {
            wait: self.config.timeouts.wait,
            create: self.config.timeouts.create,
            recycle: limit,
        };
        self.timeouts(timeouts)
    }

    /// Names the runtime that keeps time.
    pub fn runtime(self, runtime: Runtime) -> (b: Self)
        ensures
            b.manager == self.manager,
            b.config == self.config,
            b.runtime == Some(runtime),
    {
        PoolBuilder {
            manager: self.manager,
            config: self.config,
            runtime: Some(runtime),
            resource: PhantomData,
        }
    }

    /// Builds the pool: empty, open, with the ceiling and the time limits that
    /// were set.
    ///
    /// Fails where a time limit is set and no runtime is named.
    pub fn build(self) -> (r: Result<Pool<M, T>, BuildError>)
        ensures
            match r {
                Ok(pool) => {
                    &&& self.buildable()
                    &&& pool.manager == self.manager
                    &&& pool.timeouts == self.config.timeouts
                    &&& pool.runtime == self.runtime
                    &&& pool.state.wf()
                    &&& pool.state@ == PoolView::<T>::new(self.config.max_size as nat)
                },
                Err(e) => !self.buildable() && e == BuildError::NoRuntimeSpecified,
            },
    {
        if self.config.timeouts.is_limited() && self.runtime.is_none() {
            return Err(BuildError::NoRuntimeSpecified);
        }
        Ok(
            Pool {
                manager: self.manager,
                timeouts: self.config.timeouts,
                runtime: self.runtime,
                state: PoolState::new(self.config.max_size),
            },
        )
    }
}

} // verus!
