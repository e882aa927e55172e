//! Adapters that let a reactor-driven, non-blocking I/O facility stand
//! behind the executor, acceptor and duplex-stream capabilities that an
//! HTTP serving library asks of its runtime.
//!
//! The adapters never perform I/O themselves.  Each operation is split in
//! two: the caller runs the reactor's non-blocking primitive and hands its
//! outcome to the adapter, which decides what the serving library is told.
//! The `memory` module binds the adapters to an in-process reactor whose
//! behaviour is specified exactly, and `laws` states what holds of every
//! run of that pairing.

pub mod poll;
pub mod reactor;
pub mod stream;
pub mod acceptor;
pub mod spawner;
pub mod memory;
pub mod laws;
