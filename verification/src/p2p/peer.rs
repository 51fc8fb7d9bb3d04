//! A peer of a node: one open connection and what the node knows of the
//! node at its other end.

use vstd::prelude::*;

use crate::address::IpAddress;

verus! {

/// Which side opened a connection.
#[derive(Debug, Clone, Copy, PartialEq, Eq, Structural)]
pub enum PeerDirection {
    /// The other node connected to this one.
    Inbound,
    /// This node connected to the other one.
    Outbound,
}

/// A peer: the connection's stream, the number the node gave the connection
/// (its position in the node's peer list, so no two peers share one), who
/// opened it, the other node's address when known, and the port the other
/// node listens on (0 until it has announced it).
#[derive(Debug)]
pub struct Peer<S> {
    pub socket_stream: S,
    pub stream_id: usize,
    pub direction: PeerDirection,
    pub address: Option<IpAddress>,
    pub port: u16,
}

} // verus!
