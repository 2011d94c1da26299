//! The kinds of input and output failures that decisions depend on.

use vstd::prelude::*;

verus! {

/// Why an operation on a socket failed.
#[derive(Debug, Clone, Copy, PartialEq, Eq, Structural)]
pub enum IoFailure {
    /// A non-blocking operation has nothing to do yet.
    WouldBlock,
    TimedOut,
    /// The peer closed the stream without saying so.
    UnexpectedEof,
    Other,
}

/// What to do when accepting a connection has failed. Accepting stops either way
/// until the listener is polled again.
#[derive(Debug, Clone, Copy, PartialEq, Eq, Structural)]
pub enum AcceptStop {
    /// Every pending connection has been accepted.
    Drained,
    /// The listener is in trouble, which is worth a log line.
    Broken,
}

/// Tells an empty backlog from a failing listener.
pub fn accept_stop(failure: IoFailure) -> (res: AcceptStop)
    ensures
        res is Drained <==> failure is WouldBlock,
{
    match failure {
        IoFailure::WouldBlock => AcceptStop::Drained,
        _ => AcceptStop::Broken,
    }
}

/// Law: only a listener that has nothing to accept yet is found drained.
pub proof fn law_accept_stop(failure: IoFailure, res: AcceptStop)
    requires
        call_ensures(accept_stop, (failure,), res),
    ensures
        res == AcceptStop::Drained <==> failure == IoFailure::WouldBlock,
        res == AcceptStop::Broken <==> failure != IoFailure::WouldBlock,
{
}

} // verus!
