//! The gossip side of a node: messages, peers, the gossip route table, the
//! node's state and the decisions of its connection handlers.

pub mod message;
pub mod peer;
pub mod router;
pub mod server;
pub mod utils;
