//! The HTTP front end of a node: where it listens, and how a request is
//! turned into the key the route table is searched with.

use vstd::prelude::*;
use vstd::string::*;

use crate::address::IpAddress;

verus! {

/// An HTTP server: the address and port it listens on.
pub struct Server {
    pub address: IpAddress,
    pub port: u16,
}

impl Server {
    /// A server listening on `address` and `port`.
    pub fn new(address: IpAddress, port: u16) -> (s: Self)
        ensures
            s.address == address,
            s.port == port,
    {
        Self { address, port }
    }

    /// The address the server listens on.
    pub fn get_addr(&self) -> (a: IpAddress)
        ensures
            a == self.address,
    {
        self.address
    }

    /// The route key of a request: its method followed by its URI.
    pub fn request_key(method: &str, uri: &str) -> (k: String)
        ensures
            k@ == method@ + uri@,
    {
        String::from_str(method).concat(uri)
    }
}

} // verus!
