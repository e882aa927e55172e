//! An in-process reactor: sockets, a listening socket and a run queue that
//! live in memory and behave exactly as their state machines say.
//!
//! The adapters bound to it perform whole operations, primitive and
//! decision together, so what a caller observes can be stated and proved.

pub mod fault;
pub mod socket;
pub mod listener;
pub mod run_queue;
