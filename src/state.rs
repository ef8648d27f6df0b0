//! Link kinds and the connection state each task reports.
use vstd::prelude::*;

verus! {

/// The two kinds of endpoint the bridge joins.
#[derive(Clone, Copy, PartialEq, Eq, Structural, Debug)]
pub enum LinkKind {
    /// Exchanges discrete packets of at most `max_packet` bytes and signals
    /// connection and disconnection.
    Packet { max_packet: usize },
    /// Exchanges an unbounded byte stream and is always ready.
    Stream,
}

/// Which way data is moving while a task is busy.
#[derive(Clone, Copy, PartialEq, Eq, Structural, Debug)]
pub enum Activity {
    Sending,
    Receiving,
}

/// The state of one side of one direction of the bridge.
#[derive(Clone, Copy, PartialEq, Eq, Structural, Debug)]
pub enum ConnectionState {
    /// No peer is attached (packet links only).
    Disconnected,
    /// A peer is attached and the task is idle.
    Connected,
    /// The task is moving data.
    Active(Activity),
}

/// How an operation on a link failed.
#[derive(Clone, Copy, PartialEq, Eq, Structural, Debug)]
pub enum LinkFault {
    /// The peer went away; a packet link must be waited on again.
    Closed,
    /// Any other failure; the operation may simply be tried again.
    Transient,
}

} // verus!
