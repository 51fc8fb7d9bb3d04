//! Core logic of a small peer-to-peer gossip node with an HTTP front end:
//! gossip message kinds, route tables, the peer list of a node and the
//! decisions its connection handlers take.

pub mod address;
pub mod cli;
pub mod http_core;
pub mod p2p;
pub mod p2p_routes;
pub mod router;
pub mod routes;
pub mod table;
pub mod text;
