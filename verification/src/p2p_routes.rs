//! The gossip routes of a node: which kinds of message it handles.

use vstd::prelude::*;

use crate::p2p::message::GossipTypes;
use crate::p2p::router::Router;

verus! {

/// Registers `handler` for each kind of message a node answers: ping,
/// pong, request for server information, server information and new peer.
/// What the handler does with each kind is `Server::respond`; messages of
/// the remaining kind (`Def`) find no route.
pub fn configure<H: Copy>(router: &mut Router<H>, handler: H)
    ensures
        final(router).view() == old(router).view().insert(GossipTypes::Ping, Some(handler)).insert(
            GossipTypes::Pong,
            Some(handler),
        ).insert(GossipTypes::RequestServerInfo, Some(handler)).insert(
            GossipTypes::ProcessServerInfo,
            Some(handler),
        ).insert(GossipTypes::ProcessNewPeer, Some(handler)),
{
    router.add_handler(GossipTypes::Ping, handler);
    router.add_handler(GossipTypes::Pong, handler);
    router.add_handler(GossipTypes::RequestServerInfo, handler);
    router.add_handler(GossipTypes::ProcessServerInfo, handler);
    router.add_handler(GossipTypes::ProcessNewPeer, handler);
}

} // verus!
