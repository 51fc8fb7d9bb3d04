//! Gossip messages exchanged between peers.

use vstd::prelude::*;
use vstd::string::*;

use crate::address::IpAddress;
use crate::text::{is_white_space, lemma_trim_ignores_surrounding_white_space, trim, trim_white_space};

verus! {

/// How a peer ends its handling of a message.
pub enum MessageSuccessStatusCode {
    Success,
    ClosConnection,
}

/// The kinds of gossip message a node understands.
#[derive(Debug, Clone, Copy, Hash, PartialEq, Eq, Structural)]
pub enum GossipTypes {
    Ping,
    Pong,
    RequestServerInfo,
    ProcessServerInfo,
    ProcessNewPeer,
    Def,
}

/// The gossip kind a (trimmed) text names, if any: `ping`, `pong` and
/// `default` are the only names a text may give.
pub open spec fn gossip_type_of_text(s: Seq<char>) -> Option<GossipTypes> {
    let t = trim(s);
    if t == "ping"@ {
        Some(GossipTypes::Ping)
    } else if t == "pong"@ {
        Some(GossipTypes::Pong)
    } else if t == "default"@ {
        Some(GossipTypes::Def)
    } else {
        None
    }
}

/// White space around a name does not change the kind it names.
pub proof fn law_gossip_name_ignores_white_space(pre: Seq<char>, s: Seq<char>, post: Seq<char>)
    requires
        forall|k: int| 0 <= k < pre.len() ==> is_white_space(#[trigger] pre[k]),
        forall|k: int| 0 <= k < post.len() ==> is_white_space(#[trigger] post[k]),
    ensures
        gossip_type_of_text(pre + s + post) == gossip_type_of_text(s),
{
    lemma_trim_ignores_surrounding_white_space(pre, s, post);
}

/// Reading a gossip kind from its name.
pub trait FromString {
    fn from_string(input: &String) -> Result<GossipTypes, ()>;
}

impl FromString for GossipTypes {
    /// The kind that `input`, with surrounding white space removed, names;
    /// `Err(())` when it names none.
    fn from_string(input: &String) -> (r: Result<GossipTypes, ()>)
        ensures
            r == (match gossip_type_of_text(input@) {
                Some(g) => Ok::<GossipTypes, ()>(g),
                None => Err::<GossipTypes, ()>(()),
            }),
    {
        let t = String::from_str(trim_white_space(input.as_str()));
        let ping = String::from_str("ping");
        let pong = String::from_str("pong");
        let def = String::from_str("default");
        proof {
            reveal_strlit("ping");
            reveal_strlit("pong");
            reveal_strlit("default");
        }
        if t == ping {
            Ok(GossipTypes::Ping)
        } else if t == pong {
            Ok(GossipTypes::Pong)
        } else if t == def {
            Ok(GossipTypes::Def)
        } else {
            Err(())
        }
    }
}

/// What a message tells of the node that sent it: that node's address, when
/// given, and the port it listens on.
#[derive(Debug, Clone, Copy, PartialEq, Eq)]
pub struct PeerInfo {
    pub address: Option<IpAddress>,
    pub port: u16,
}

/// A gossip message: its kind, its text body and, when the sender gave it,
/// information on the sender.
#[derive(Debug)]
pub struct Message {
    pub gossip_type: GossipTypes,
    pub body: String,
    pub peer_info: Option<PeerInfo>,
}

impl Message {
    /// A message of kind `gossip_type` whose body is `s`, with no
    /// information on its sender.
    pub fn new(gossip_type: GossipTypes, s: &str) -> (m: Self)
        ensures
            m.gossip_type == gossip_type,
            m.body@ == s@,
            m.peer_info is None,
    {
        Self { gossip_type, body: String::from_str(s), peer_info: None }
    }

    /// A message of kind `gossip_type` whose body is `s`, telling that its
    /// sender is at `address` and listens on `port`.
    pub fn with_peer_info(gossip_type: GossipTypes, s: &str, address: Option<IpAddress>, port: u16) -> (m: Self)
        ensures
            m.gossip_type == gossip_type,
            m.body@ == s@,
            m.peer_info == Some(PeerInfo { address, port }),
    {
        Self { gossip_type, body: String::from_str(s), peer_info: Some(PeerInfo { address, port }) }
    }
}

} // verus!
