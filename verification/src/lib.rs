//! A bounded pool of reusable resources, with the bookkeeping proved.
//!
//! The pool's decisions are a state machine over plain values: callers report
//! what happened (a request, a release, a failed creation) and are told what to
//! do next. Suspending, timing and talking to the resource itself are left to
//! the code around the library.

pub mod connection;
pub mod laws;
pub mod metrics;
pub mod model;
pub mod pool;
pub mod sentinel;
pub mod state;
