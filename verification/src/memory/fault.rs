//! The transport errors of the in-process reactor.

use vstd::prelude::*;

verus! {

/// A failure that the in-process reactor reports.
#[derive(Clone, Copy, Debug, PartialEq, Eq, Structural)]
pub enum Fault {
    /// A queued connection was torn down before it could be accepted.
    ConnectionAborted,
    /// The peer reset the connection.
    ConnectionReset,
    /// Bytes were written after the outbound half was closed.
    BrokenPipe,
    /// A shutdown was asked of a connection that no longer exists.
    NotConnected,
}

} // verus!
