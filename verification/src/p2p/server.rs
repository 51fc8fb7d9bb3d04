//! A gossip node's state (its address, port, peers and route table) and the
//! decisions its message handlers take on it.

use vstd::prelude::*;

use crate::address::{IpAddress, SocketAddress, LOCALHOST};
use crate::p2p::message::{GossipTypes, Message, PeerInfo};
use crate::p2p::peer::{Peer, PeerDirection};

verus! {

/// The port of the node every node first tries to join.
pub const BOOTSTRAP_PORT: u16 = 3002;

/// The positions, in order, of the peers whose connection is not `origin`.
pub open spec fn broadcast_targets<S>(peers: Seq<Peer<S>>, origin: usize) -> Seq<usize>
    decreases peers.len(),
{
    if peers.len() == 0 {
        Seq::empty()
    } else {
        let rest = broadcast_targets(peers.drop_last(), origin);
        if peers.last().stream_id != origin {
            rest.push((peers.len() - 1) as usize)
        } else {
            rest
        }
    }
}

/// Every peer's stream id is its position in the peer list.
pub open spec fn ids_are_positions<S>(peers: Seq<Peer<S>>) -> bool {
    forall|i: int| 0 <= i < peers.len() ==> (#[trigger] peers[i]).stream_id == i
}

/// No two peers share a stream id.
pub open spec fn ids_distinct<S>(peers: Seq<Peer<S>>) -> bool {
    forall|i: int, j: int|
        0 <= i < peers.len() && 0 <= j < peers.len() && i != j ==> (#[trigger] peers[i]).stream_id
            != (#[trigger] peers[j]).stream_id
}

/// The peer list `new_peers` keeps every peer of `old_peers`, in its place,
/// with the same stream, stream id, direction and address (only ports may
/// change), and may have more peers after them.
pub open spec fn peers_extend<S>(old_peers: Seq<Peer<S>>, new_peers: Seq<Peer<S>>) -> bool {
    &&& old_peers.len() <= new_peers.len()
    &&& forall|i: int|
        #![trigger new_peers[i]]
        0 <= i < old_peers.len() ==> {
            &&& new_peers[i].socket_stream == old_peers[i].socket_stream
            &&& new_peers[i].stream_id == old_peers[i].stream_id
            &&& new_peers[i].direction == old_peers[i].direction
            &&& new_peers[i].address == old_peers[i].address
        }
}

/// When stream ids are positions, no two peers share one.
pub proof fn law_position_ids_are_distinct<S>(peers: Seq<Peer<S>>)
    requires
        ids_are_positions(peers),
    ensures
        ids_distinct(peers),
{
}

/// Peers are never removed or reordered: a peer list observed later keeps
/// every peer of one observed earlier, in its place.
pub proof fn law_peer_list_only_grows<S>(p1: Seq<Peer<S>>, p2: Seq<Peer<S>>, p3: Seq<Peer<S>>)
    requires
        peers_extend(p1, p2),
        peers_extend(p2, p3),
    ensures
        peers_extend(p1, p3),
        peers_extend(p1, p1),
{
    assert forall|i: int| 0 <= i < p1.len() implies #[trigger] p3[i].stream_id == p1[i].stream_id
        && p3[i].socket_stream == p1[i].socket_stream && p3[i].direction == p1[i].direction
        && p3[i].address == p1[i].address by {
        assert(p2[i].stream_id == p1[i].stream_id);
        assert(p3[i].stream_id == p2[i].stream_id);
    }
}

/// The port to connect to on a new-peer announcement `message`: the port it
/// tells, when no peer has announced that port and it is not `own_port`.
pub open spec fn connect_target<S>(peers: Seq<Peer<S>>, own_port: u16, message: Message) -> Option<u16> {
    match message.peer_info {
        Some(info) => if !knows_port(peers, info.port) && info.port != own_port {
            Some(info.port)
        } else {
            None
        },
        None => None,
    }
}

/// Whether some peer has announced the port `port`.
pub open spec fn knows_port<S>(peers: Seq<Peer<S>>, port: u16) -> bool {
    exists|i: int| 0 <= i < peers.len() && (#[trigger] peers[i]).port == port
}

/// The same peers, where those on connection `stream_id` now have port
/// `port`.
pub open spec fn ports_set<S>(
    old_peers: Seq<Peer<S>>,
    new_peers: Seq<Peer<S>>,
    stream_id: usize,
    port: u16,
) -> bool {
    &&& new_peers.len() == old_peers.len()
    &&& forall|i: int|
        #![trigger new_peers[i]]
        0 <= i < new_peers.len() ==> {
            &&& new_peers[i].socket_stream == old_peers[i].socket_stream
            &&& new_peers[i].stream_id == old_peers[i].stream_id
            &&& new_peers[i].direction == old_peers[i].direction
            &&& new_peers[i].address == old_peers[i].address
            &&& new_peers[i].port == (if old_peers[i].stream_id == stream_id {
                port
            } else {
                old_peers[i].port
            })
        }
}

/// A broadcast goes to every peer but those on the originating connection,
/// each once, in the order of the peer list.
pub proof fn law_broadcast_targets<S>(peers: Seq<Peer<S>>, origin: usize)
    requires
        peers.len() <= usize::MAX,
    ensures
        forall|k: int|
            #![trigger broadcast_targets(peers, origin)[k]]
            0 <= k < broadcast_targets(peers, origin).len() ==> {
                &&& broadcast_targets(peers, origin)[k] < peers.len()
                &&& peers[broadcast_targets(peers, origin)[k] as int].stream_id != origin
            },
        forall|k1: int, k2: int|
            0 <= k1 < k2 < broadcast_targets(peers, origin).len() ==> broadcast_targets(
                peers,
                origin,
            )[k1] < broadcast_targets(peers, origin)[k2],
        forall|i: int|
            0 <= i < peers.len() && (#[trigger] peers[i]).stream_id != origin ==> broadcast_targets(
                peers,
                origin,
            ).contains(i as usize),
    decreases peers.len(),
{
    if peers.len() > 0 {
        let init = peers.drop_last();
        law_broadcast_targets(init, origin);
        let rest = broadcast_targets(init, origin);
        let t = broadcast_targets(peers, origin);
        let last = (peers.len() - 1) as usize;
        assert forall|k: int| 0 <= k < rest.len() implies rest[k] < init.len()
            && peers[rest[k] as int].stream_id != origin by {
            assert(rest[k] < init.len());
            assert(init[rest[k] as int] == peers[rest[k] as int]);
        }
        if peers.last().stream_id != origin {
            assert(t == rest.push(last));
        } else {
            assert(t == rest);
        }
        assert forall|i: int|
            0 <= i < peers.len() && (#[trigger] peers[i]).stream_id != origin implies t.contains(
                i as usize,
            ) by {
            if i < peers.len() - 1 {
                assert(init[i] == peers[i]);
                assert(rest.contains(i as usize));
                let k = choose|k: int| 0 <= k < rest.len() && rest[k] == i as usize;
                assert(t[k] == rest[k]);
            } else {
                assert(t[t.len() - 1] == i as usize);
            }
        }
    }
}

/// Once a peer's connection has announced port `port`, the node knows that
/// port, so a later announcement of it does not make the node connect to
/// it again.
pub proof fn law_announced_port_is_known<S>(
    old_peers: Seq<Peer<S>>,
    new_peers: Seq<Peer<S>>,
    stream_id: usize,
    port: u16,
    i: int,
)
    requires
        ports_set(old_peers, new_peers, stream_id, port),
        0 <= i < old_peers.len(),
        old_peers[i].stream_id == stream_id,
    ensures
        knows_port(new_peers, port),
        forall|own_port: u16, message: Message|
            message.peer_info matches Some(info) && info.port == port ==> #[trigger] connect_target(
                new_peers,
                own_port,
                message,
            ) is None,
{
    assert(new_peers[i].port == port);
}

/// A peer list knows a port exactly when some peer in it has that port:
/// a list in which no peer has port `port` does not know it.
pub proof fn law_knows_port_exactly<S>(peers: Seq<Peer<S>>, port: u16)
    ensures
        knows_port(peers, port) <==> exists|i: int| 0 <= i < peers.len() && peers[i].port == port,
        (forall|i: int| 0 <= i < peers.len() ==> peers[i].port != port) ==> !knows_port(peers, port),
{
}

/// A new-peer announcement of port `p` leads to a connection to `p`
/// exactly when the announcement carries `p`, `p` is not the node's own
/// port, and no peer has port `p`; it never leads to a connection to any
/// other port.
pub proof fn law_connect_target_exactly<S>(peers: Seq<Peer<S>>, own_port: u16, message: Message, p: u16)
    ensures
        connect_target(peers, own_port, message) == Some(p) <==> (message.peer_info matches Some(
            info,
        ) && info.port == p && p != own_port && forall|i: int|
            0 <= i < peers.len() ==> peers[i].port != p),
        connect_target(peers, own_port, message) matches Some(q) ==> message.peer_info matches Some(
            info,
        ) && info.port == q,
{
    if let Some(info) = message.peer_info {
        if !(forall|i: int| 0 <= i < peers.len() ==> peers[i].port != info.port) {
            let i = choose|i: int| 0 <= i < peers.len() && !(peers[i].port != info.port);
            assert(peers[i].port == info.port);
            assert(knows_port(peers, info.port));
        }
    }
}

/// Server information learned on connection `stream_id` changes the port
/// of the peers on that connection only: every other peer keeps the port it
/// had, and the list keeps its length.
pub proof fn law_server_info_keeps_other_ports<S>(
    old_peers: Seq<Peer<S>>,
    new_peers: Seq<Peer<S>>,
    stream_id: usize,
    port: u16,
)
    requires
        ports_set(old_peers, new_peers, stream_id, port),
    ensures
        new_peers.len() == old_peers.len(),
        forall|i: int|
            0 <= i < old_peers.len() && old_peers[i].stream_id != stream_id ==> new_peers[i].port
                == old_peers[i].port,
        forall|i: int|
            0 <= i < old_peers.len() && old_peers[i].stream_id == stream_id ==> new_peers[i].port
                == port,
{
    assert forall|i: int| 0 <= i < old_peers.len() implies new_peers[i].port == (if old_peers[i].stream_id == stream_id {
        port
    } else {
        old_peers[i].port
    }) by {
        assert(new_peers[i].port == (if old_peers[i].stream_id == stream_id {
            port
        } else {
            old_peers[i].port
        }));
    }
}

/// What a new-peer announcement tells: the new peer listens on `port` of
/// this host.
pub open spec fn new_peer_info(port: u16) -> PeerInfo {
    PeerInfo { address: Some(IpAddress::V4(LOCALHOST)), port }
}

/// A message to send to several peers: the positions of the peers in the
/// node's peer list and the message.
pub struct Broadcast {
    pub targets: Vec<usize>,
    pub message: Message,
}

/// How long a node waits before answering a ping, in milliseconds.
pub const PING_REPLY_DELAY_MS: u64 = 2000;

/// What a node does with a gossip message it received.
pub enum GossipAction {
    /// Send `message` back on the connection, after `delay_ms` milliseconds.
    Reply { message: Message, delay_ms: u64 },
    /// Send a message to several peers.
    Broadcast(Broadcast),
    /// Connect to the node listening on this port of this host.
    Connect(u16),
    /// Nothing more.
    Nothing,
}

/// A gossip node.
pub struct Server<S, R> {
    pub address: IpAddress,
    pub port: u16,
    pub peers: Vec<Peer<S>>,
    pub router: R,
}

impl<S, R> Server<S, R> {
    /// A node at `address` and `port`, with no peers, routing with `router`.
    pub fn new(address: IpAddress, port: u16, router: R) -> (s: Self)
        ensures
            s.address == address,
            s.port == port,
            s.peers@ == Seq::<Peer<S>>::empty(),
            ids_are_positions(s.peers@),
            s.router == router,
    {
        Server { address, port, peers: Vec::new(), router }
    }

    /// Records a connection that another node opened to this one, from
    /// `remote`: the peer is inbound, its address is the IP of `remote`, its
    /// port not yet known (0), and its stream id the next position in the
    /// peer list, which is returned.
    pub fn add_inbound_peer(&mut self, socket_stream: S, remote: SocketAddress) -> (id: usize)
        ensures
            id == old(self).peers@.len(),
            final(self).peers@ == old(self).peers@.push(
                Peer {
                    socket_stream,
                    stream_id: id,
                    direction: PeerDirection::Inbound,
                    address: Some(remote.spec_ip()),
                    port: 0,
                },
            ),
            peers_extend(old(self).peers@, final(self).peers@),
            ids_are_positions(old(self).peers@) ==> ids_are_positions(final(self).peers@) && ids_distinct(final(self).peers@),
            final(self).address == old(self).address,
            final(self).port == old(self).port,
            final(self).router == old(self).router,
    {
        let id = self.peers.len();
        let address = Some(remote.ip());
        self.peers.push(
            Peer { socket_stream, stream_id: id, direction: PeerDirection::Inbound, address, port: 0 },
        );
        id
    }

    /// Records a connection this node opened to another: the peer is
    /// outbound, its address and port are not yet known, and its stream id
    /// is the next position in the peer list, which is returned.
    pub fn add_outbound_peer(&mut self, socket_stream: S) -> (id: usize)
        ensures
            id == old(self).peers@.len(),
            final(self).peers@ == old(self).peers@.push(
                Peer {
                    socket_stream,
                    stream_id: id,
                    direction: PeerDirection::Outbound,
                    address: None,
                    port: 0,
                },
            ),
            peers_extend(old(self).peers@, final(self).peers@),
            ids_are_positions(old(self).peers@) ==> ids_are_positions(final(self).peers@) && ids_distinct(final(self).peers@),
            final(self).address == old(self).address,
            final(self).port == old(self).port,
            final(self).router == old(self).router,
    {
        let id = self.peers.len();
        self.peers.push(
            Peer {
                socket_stream,
                stream_id: id,
                direction: PeerDirection::Outbound,
                address: None,
                port: 0,
            },
        );
        id
    }

    /// The number of peers.
    pub fn peer_count(&self) -> (n: usize)
        ensures
            n == self.peers@.len(),
    {
        let mut count: usize = 0;
        let mut i: usize = 0;
        while i < self.peers.len()
            invariant
                i <= self.peers@.len(),
                count == i,
            decreases self.peers@.len() - i,
        {
            count = count + 1;
            i = i + 1;
        }
        count
    }

    /// The message announcing a new peer that listens on `broadcast_port`
    /// of this host, to be sent to every peer but the one on connection
    /// `stream_id`.
    pub fn broadcast_to_peers(&self, _message: &Message, stream_id: usize, broadcast_port: u16) -> (b: Broadcast)
        ensures
            b.targets@ == broadcast_targets(self.peers@, stream_id),
            b.message.gossip_type == GossipTypes::ProcessNewPeer,
            b.message.body@ == ""@,
            b.message.peer_info == Some(new_peer_info(broadcast_port)),
    {
        let mut targets: Vec<usize> = Vec::new();
        let mut i: usize = 0;
        while i < self.peers.len()
            invariant
                i <= self.peers@.len(),
                targets@ == broadcast_targets(self.peers@.take(i as int), stream_id),
            decreases self.peers@.len() - i,
        {
            assert(self.peers@.take(i + 1).drop_last() =~= self.peers@.take(i as int));
            if self.peers[i].stream_id != stream_id {
                targets.push(i);
            }
            i = i + 1;
        }
        assert(self.peers@.take(i as int) =~= self.peers@);
        let message = Message::with_peer_info(
            GossipTypes::ProcessNewPeer,
            "",
            Some(IpAddress::V4(LOCALHOST)),
            broadcast_port,
        );
        Broadcast { targets, message }
    }

    /// Handles a server-info message from the peer on connection
    /// `stream_id`: when the message tells the port its sender listens on,
    /// every peer on that connection gets that port, and the new peer is to
    /// be announced to all other peers; otherwise nothing changes.
    pub fn process_server_info(&mut self, message: &Message, stream_id: usize) -> (r: Option<Broadcast>)
        ensures
            final(self).address == old(self).address,
            final(self).port == old(self).port,
            final(self).router == old(self).router,
            match message.peer_info {
                None => r is None && final(self).peers@ == old(self).peers@,
                Some(info) => {
                    &&& ports_set(old(self).peers@, final(self).peers@, stream_id, info.port)
                    &&& final(self).peers@.len() == old(self).peers@.len()
                    &&& forall|i: int|
                        0 <= i < old(self).peers@.len() && old(self).peers@[i].stream_id != stream_id
                            ==> final(self).peers@[i].port == old(self).peers@[i].port
                    &&& forall|i: int|
                        0 <= i < old(self).peers@.len() && old(self).peers@[i].stream_id == stream_id
                            ==> final(self).peers@[i].port == info.port
                    &&& peers_extend(old(self).peers@, final(self).peers@)
                    &&& ids_are_positions(old(self).peers@) ==> ids_are_positions(final(self).peers@)
                    &&& r matches Some(b) && b.targets@ == broadcast_targets(final(self).peers@, stream_id)
                        && b.message.gossip_type == GossipTypes::ProcessNewPeer
                        && b.message.body@ == ""@
                        && b.message.peer_info == Some(new_peer_info(info.port))
                },
            },
    {
        let new_peer_port = match &message.peer_info {
            Some(info) => info.port,
            None => return None,
        };
        let ghost old_peers = self.peers@;
        let mut i: usize = 0;
        while i < self.peers.len()
            invariant
                self.address == old(self).address,
                self.port == old(self).port,
                self.router == old(self).router,
                self.peers@.len() == old_peers.len(),
                i <= old_peers.len(),
                forall|j: int|
                    #![trigger self.peers@[j]]
                    0 <= j < old_peers.len() ==> {
                        &&& self.peers@[j].socket_stream == old_peers[j].socket_stream
                        &&& self.peers@[j].stream_id == old_peers[j].stream_id
                        &&& self.peers@[j].direction == old_peers[j].direction
                        &&& self.peers@[j].address == old_peers[j].address
                        &&& self.peers@[j].port == (if j < i && old_peers[j].stream_id == stream_id {
                            new_peer_port
                        } else {
                            old_peers[j].port
                        })
                    },
            decreases old_peers.len() - i,
        {
            if self.peers[i].stream_id == stream_id {
                self.peers[i].port = new_peer_port;
            }
            i = i + 1;
        }
        let notice = Message::with_peer_info(
            GossipTypes::ProcessNewPeer,
            "",
            Some(self.address),
            self.port,
        );
        Some(self.broadcast_to_peers(&notice, stream_id, new_peer_port))
    }

    /// Whether some peer has announced the port `port`.
    pub fn knows_peer_port(&self, port: u16) -> (b: bool)
        ensures
            b == knows_port(self.peers@, port),
            b <==> exists|i: int| 0 <= i < self.peers@.len() && self.peers@[i].port == port,
    {
        let mut i: usize = 0;
        while i < self.peers.len()
            invariant
                i <= self.peers@.len(),
                forall|j: int| 0 <= j < i ==> (#[trigger] self.peers@[j]).port != port,
            decreases self.peers@.len() - i,
        {
            if self.peers[i].port == port {
                return true;
            }
            i = i + 1;
        }
        false
    }

    /// Whether this node may open a connection to the node on `port`: not
    /// to itself.
    pub fn may_connect_to(&self, port: u16) -> (b: bool)
        ensures
            b == (self.port != port),
    {
        self.port != port
    }

    /// Handles an announcement of a new peer: the port to connect to, when
    /// the message tells a port that no peer has announced and that is not
    /// this node's own.
    pub fn process_new_peer(&self, message: &Message) -> (r: Option<u16>)
        ensures
            r == connect_target(self.peers@, self.port, *message),
            r is Some <==> message.peer_info is Some && message.peer_info->0.port != self.port
                && forall|i: int|
                0 <= i < self.peers@.len() ==> self.peers@[i].port != message.peer_info->0.port,
            r matches Some(p) ==> message.peer_info matches Some(info) && p == info.port,
    {
        match &message.peer_info {
            Some(info) => {
                let p = info.port;
                if !self.knows_peer_port(p) && self.may_connect_to(p) {
                    Some(p)
                } else {
                    None
                }
            },
            None => None,
        }
    }

    /// This node's address and port, as its messages tell them.
    pub open spec fn own_info(&self) -> PeerInfo {
        PeerInfo { address: Some(self.address), port: self.port }
    }

    /// What a node tells of itself in its replies and greeting is its own
    /// address and its own port.
    pub proof fn law_own_info(&self)
        ensures
            self.own_info().address == Some(self.address),
            self.own_info().port == self.port,
    {
    }

    /// The answer to a ping: a pong saying "Ponging", with this node's
    /// address and port.
    pub fn ping_reply(&self) -> (m: Message)
        ensures
            m.gossip_type == GossipTypes::Pong,
            m.body@ == "Ponging"@,
            m.peer_info == Some(self.own_info()),
            m.peer_info == Some(PeerInfo { address: Some(self.address), port: self.port }),
    {
        Message::with_peer_info(GossipTypes::Pong, "Ponging", Some(self.address), self.port)
    }

    /// The answer to a pong: a ping saying "Pinging", with this node's
    /// address and port.
    pub fn pong_reply(&self) -> (m: Message)
        ensures
            m.gossip_type == GossipTypes::Ping,
            m.body@ == "Pinging"@,
            m.peer_info == Some(self.own_info()),
            m.peer_info == Some(PeerInfo { address: Some(self.address), port: self.port }),
    {
        Message::with_peer_info(GossipTypes::Ping, "Pinging", Some(self.address), self.port)
    }

    /// The answer to a request for server information: an empty message
    /// with this node's address and port.
    pub fn server_info_reply(&self) -> (m: Message)
        ensures
            m.gossip_type == GossipTypes::ProcessServerInfo,
            m.body@ == ""@,
            m.peer_info == Some(self.own_info()),
            m.peer_info == Some(PeerInfo { address: Some(self.address), port: self.port }),
    {
        Message::with_peer_info(GossipTypes::ProcessServerInfo, "", Some(self.address), self.port)
    }

    /// The first message a node sends on a connection it accepted: a
    /// request for the other node's server information, saying "Hello",
    /// with this node's address and port.
    pub fn greeting(&self) -> (m: Message)
        ensures
            m.gossip_type == GossipTypes::RequestServerInfo,
            m.body@ == "Hello"@,
            m.peer_info == Some(self.own_info()),
            m.peer_info == Some(PeerInfo { address: Some(self.address), port: self.port }),
    {
        Message::with_peer_info(GossipTypes::RequestServerInfo, "Hello", Some(self.address), self.port)
    }

    /// What this node does with `message`, received on connection
    /// `stream_id`, by its kind: a ping is answered with a pong after
    /// `PING_REPLY_DELAY_MS`; a pong with a ping; a request for server
    /// information with this node's server information; server information
    /// sets the port of the sender's peers and announces the sender to the
    /// other peers (`process_server_info`); a new-peer announcement leads to
    /// a connection when `process_new_peer` gives a port; any other message
    /// leads to nothing.
    pub fn respond(&mut self, message: &Message, stream_id: usize) -> (a: GossipAction)
        ensures
            final(self).address == old(self).address,
            final(self).port == old(self).port,
            final(self).router == old(self).router,
            peers_extend(old(self).peers@, final(self).peers@),
            ids_are_positions(old(self).peers@) ==> ids_are_positions(final(self).peers@),
            match message.gossip_type {
                GossipTypes::Ping => {
                    &&& final(self).peers@ == old(self).peers@
                    &&& a matches GossipAction::Reply { message: m, delay_ms }
                        && delay_ms == PING_REPLY_DELAY_MS && m.gossip_type == GossipTypes::Pong
                        && m.body@ == "Ponging"@ && m.peer_info == Some(old(self).own_info())
                        && m.peer_info == Some(PeerInfo { address: Some(old(self).address), port: old(self).port })
                },
                GossipTypes::Pong => {
                    &&& final(self).peers@ == old(self).peers@
                    &&& a matches GossipAction::Reply { message: m, delay_ms } && delay_ms == 0
                        && m.gossip_type == GossipTypes::Ping && m.body@ == "Pinging"@
                        && m.peer_info == Some(old(self).own_info())
                        && m.peer_info == Some(PeerInfo { address: Some(old(self).address), port: old(self).port })
                },
                GossipTypes::RequestServerInfo => {
                    &&& final(self).peers@ == old(self).peers@
                    &&& a matches GossipAction::Reply { message: m, delay_ms } && delay_ms == 0
                        && m.gossip_type == GossipTypes::ProcessServerInfo && m.body@ == ""@
                        && m.peer_info == Some(old(self).own_info())
                        && m.peer_info == Some(PeerInfo { address: Some(old(self).address), port: old(self).port })
                },
                GossipTypes::ProcessServerInfo => match message.peer_info {
                    None => a is Nothing && final(self).peers@ == old(self).peers@,
                    Some(info) => {
                        &&& ports_set(old(self).peers@, final(self).peers@, stream_id, info.port)
                    &&& final(self).peers@.len() == old(self).peers@.len()
                    &&& forall|i: int|
                        0 <= i < old(self).peers@.len() && old(self).peers@[i].stream_id != stream_id
                            ==> final(self).peers@[i].port == old(self).peers@[i].port
                    &&& forall|i: int|
                        0 <= i < old(self).peers@.len() && old(self).peers@[i].stream_id == stream_id
                            ==> final(self).peers@[i].port == info.port
                        &&& a matches GossipAction::Broadcast(b) && b.targets@ == broadcast_targets(
                            final(self).peers@,
                            stream_id,
                        ) && b.message.gossip_type == GossipTypes::ProcessNewPeer && b.message.body@
                            == ""@ && b.message.peer_info == Some(new_peer_info(info.port))
                    },
                },
                GossipTypes::ProcessNewPeer => {
                    &&& final(self).peers@ == old(self).peers@
                    &&& match connect_target(old(self).peers@, old(self).port, *message) {
                        Some(p) => a matches GossipAction::Connect(q) && q == p,
                        None => a is Nothing,
                    }
                },
                GossipTypes::Def => a is Nothing && final(self).peers@ == old(self).peers@,
            },
    {
        match message.gossip_type {
            GossipTypes::Ping => GossipAction::Reply {
                message: self.ping_reply(),
                delay_ms: PING_REPLY_DELAY_MS,
            },
            GossipTypes::Pong => GossipAction::Reply { message: self.pong_reply(), delay_ms: 0 },
            GossipTypes::RequestServerInfo => GossipAction::Reply {
                message: self.server_info_reply(),
                delay_ms: 0,
            },
            GossipTypes::ProcessServerInfo => match self.process_server_info(message, stream_id) {
                Some(b) => GossipAction::Broadcast(b),
                None => GossipAction::Nothing,
            },
            GossipTypes::ProcessNewPeer => match self.process_new_peer(message) {
                Some(p) => GossipAction::Connect(p),
                None => GossipAction::Nothing,
            },
            GossipTypes::Def => GossipAction::Nothing,
        }
    }
}

} // verus!
