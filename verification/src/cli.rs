//! The command line of a node and what it asks the node to start.

use vstd::prelude::*;

verus! {

/// The commands a node accepts.
pub enum Commands {
    /// Start a node whose HTTP side listens on `address` and `port`.
    Start { address: String, port: u16 },
}

/// The parsed command line.
pub struct Cli {
    pub command: Option<Commands>,
}

impl Cli {
    /// The address and port of the HTTP server to start, if the command
    /// line asks for one.
    pub fn server_to_start(&self) -> (r: Option<(&String, u16)>)
        ensures
            match self.command {
                Some(Commands::Start { address, port }) => r matches Some(x) && *x.0 == address
                    && x.1 == port,
                None => r is None,
            },
    {
        match &self.command {
            Some(Commands::Start { address, port }) => Some((address, *port)),
            None => None,
        }
    }
}

/// The port of the gossip side of a node whose HTTP side listens on
/// `http_port`: the next one.
pub fn p2p_port(http_port: u16) -> (p: u16)
    requires
        http_port < u16::MAX,
    ensures
        p == http_port + 1,
{
    http_port + 1
}

} // verus!
