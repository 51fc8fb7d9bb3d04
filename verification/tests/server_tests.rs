use bitfab::address::{IpAddress, SocketAddress};
use bitfab::cli::{p2p_port, Cli, Commands};
use bitfab::http_core::Server as HttpServer;
use bitfab::p2p::message::{GossipTypes, Message, PeerInfo};
use bitfab::p2p::peer::PeerDirection;
use bitfab::p2p::server::{GossipAction, Server, BOOTSTRAP_PORT, PING_REPLY_DELAY_MS};
use bitfab::p2p::utils::{next_connection_action, ConnectionAction, ReadOutcome};

fn conn(port: u16) -> SocketAddress {
    SocketAddress::localhost(port)
}

fn node() -> Server<&'static str, ()> {
    Server::new(IpAddress::V4(0x7f00_0001), 3001, ())
}

fn me() -> Option<PeerInfo> {
    Some(PeerInfo { address: Some(IpAddress::V4(0x7f00_0001)), port: 3001 })
}

fn info_from(port: u16) -> Message {
    Message::with_peer_info(GossipTypes::ProcessServerInfo, "", None, port)
}

#[test]
fn new_node_has_no_peers() {
    let s = node();
    assert_eq!(s.peer_count(), 0);
    assert_eq!(s.port, 3001);
    assert_eq!(s.address, IpAddress::V4(0x7f00_0001));
    assert_eq!(BOOTSTRAP_PORT, 3002);
}

#[test]
fn peers_are_recorded_with_direction_and_fresh_ids() {
    let mut s = node();
    let a = SocketAddress::V4 { ip: 0x0a00_0002, port: 50000 };
    assert_eq!(s.add_inbound_peer("in", a), 0);
    assert_eq!(s.add_outbound_peer("out"), 1);
    assert_eq!(s.peer_count(), 2);
    assert_eq!(s.peers[0].direction, PeerDirection::Inbound);
    assert_eq!(s.peers[0].address, Some(IpAddress::V4(0x0a00_0002)));
    assert_eq!(s.peers[0].port, 0);
    assert_eq!(s.peers[0].stream_id, 0);
    assert_eq!(s.peers[1].direction, PeerDirection::Outbound);
    assert_eq!(s.peers[1].address, None);
    assert_eq!(s.peers[1].socket_stream, "out");
    assert_eq!(s.peers[1].stream_id, 1);
}

#[test]
fn same_remote_address_gets_distinct_ids() {
    let mut s = node();
    let a = conn(40002);
    let first = s.add_inbound_peer("a", a);
    let second = s.add_inbound_peer("b", a);
    assert_ne!(first, second);
    let b = s.broadcast_to_peers(&Message::new(GossipTypes::Def, ""), first, 3005);
    assert_eq!(b.targets, vec![1]);
}

#[test]
fn broadcast_skips_the_origin() {
    let mut s = node();
    s.add_inbound_peer("a", conn(40001));
    let origin = s.add_inbound_peer("b", conn(40002));
    s.add_outbound_peer("c");
    s.add_inbound_peer("d", conn(40004));
    let b = s.broadcast_to_peers(&Message::new(GossipTypes::Def, ""), origin, 3005);
    assert_eq!(b.targets, vec![0, 2, 3]);
    assert_eq!(b.message.gossip_type, GossipTypes::ProcessNewPeer);
    assert_eq!(b.message.body, "");
    assert_eq!(
        b.message.peer_info,
        Some(PeerInfo { address: Some(IpAddress::V4(0x7f00_0001)), port: 3005 })
    );
    let all = s.broadcast_to_peers(&Message::new(GossipTypes::Def, ""), 99, 7);
    assert_eq!(all.targets, vec![0, 1, 2, 3]);
}

#[test]
fn server_info_sets_port_of_its_connection() {
    let mut s = node();
    s.add_inbound_peer("a", conn(40001));
    let origin = s.add_inbound_peer("b", conn(40002));
    let b = s.process_server_info(&info_from(3007), origin).expect("a port");
    assert_eq!(s.peers[0].port, 0);
    assert_eq!(s.peers[1].port, 3007);
    assert_eq!(b.targets, vec![0]);
    assert_eq!(b.message.gossip_type, GossipTypes::ProcessNewPeer);
    assert_eq!(b.message.body, "");
    assert_eq!(b.message.peer_info.map(|i| i.port), Some(3007));
}

#[test]
fn server_info_without_a_port_changes_nothing() {
    let mut s = node();
    let origin = s.add_inbound_peer("a", conn(40001));
    let info = Message::new(GossipTypes::ProcessServerInfo, "3007");
    assert!(s.process_server_info(&info, origin).is_none());
    assert_eq!(s.peers[0].port, 0);
}

#[test]
fn new_peer_is_joined_once_and_never_self() {
    let mut s = node();
    let origin = s.add_inbound_peer("a", conn(40001));
    let announce =
        Message::with_peer_info(GossipTypes::ProcessNewPeer, "", Some(IpAddress::V4(0x7f00_0001)), 3009);
    assert_eq!(s.process_new_peer(&announce), Some(3009));
    s.process_server_info(&info_from(3009), origin);
    assert_eq!(s.process_new_peer(&announce), None);
    assert!(s.knows_peer_port(3009));
    let own = Message::with_peer_info(GossipTypes::ProcessNewPeer, "", None, 3001);
    assert_eq!(s.process_new_peer(&own), None);
    let junk = Message::new(GossipTypes::ProcessNewPeer, "3010");
    assert_eq!(s.process_new_peer(&junk), None);
    assert!(!s.may_connect_to(3001));
    assert!(s.may_connect_to(3002));
}

#[test]
fn replies_have_their_kinds_and_texts() {
    let s = node();
    let m = s.ping_reply();
    assert_eq!((m.gossip_type, m.body.as_str()), (GossipTypes::Pong, "Ponging"));
    assert_eq!(m.peer_info, me());
    let m = s.pong_reply();
    assert_eq!((m.gossip_type, m.body.as_str()), (GossipTypes::Ping, "Pinging"));
    assert_eq!(m.peer_info, me());
    let m = s.server_info_reply();
    assert_eq!((m.gossip_type, m.body.as_str()), (GossipTypes::ProcessServerInfo, ""));
    assert_eq!(m.peer_info, me());
    let m = s.greeting();
    assert_eq!((m.gossip_type, m.body.as_str()), (GossipTypes::RequestServerInfo, "Hello"));
    assert_eq!(m.peer_info, me());
}

fn reply_of(a: GossipAction) -> (GossipTypes, String, u64) {
    match a {
        GossipAction::Reply { message, delay_ms } => (message.gossip_type, message.body, delay_ms),
        _ => panic!("not a reply"),
    }
}

#[test]
fn respond_answers_each_kind() {
    let mut s = node();
    let origin = s.add_inbound_peer("a", conn(40001));
    s.add_inbound_peer("b", conn(40002));
    assert_eq!(
        reply_of(s.respond(&Message::new(GossipTypes::Ping, "hi"), origin)),
        (GossipTypes::Pong, "Ponging".to_string(), PING_REPLY_DELAY_MS)
    );
    assert_eq!(PING_REPLY_DELAY_MS, 2000);
    assert_eq!(
        reply_of(s.respond(&Message::new(GossipTypes::Pong, ""), origin)),
        (GossipTypes::Ping, "Pinging".to_string(), 0)
    );
    assert_eq!(
        reply_of(s.respond(&Message::new(GossipTypes::RequestServerInfo, "Hello"), origin)),
        (GossipTypes::ProcessServerInfo, String::new(), 0)
    );
    match s.respond(&info_from(3011), origin) {
        GossipAction::Broadcast(b) => assert_eq!(b.targets, vec![1]),
        _ => panic!("not a broadcast"),
    }
    assert_eq!(s.peers[0].port, 3011);
    let announce = |p: u16| Message::with_peer_info(GossipTypes::ProcessNewPeer, "", None, p);
    assert!(matches!(s.respond(&announce(3012), origin), GossipAction::Connect(3012)));
    assert!(matches!(s.respond(&announce(3011), origin), GossipAction::Nothing));
    assert!(matches!(s.respond(&announce(3001), origin), GossipAction::Nothing));
    assert!(matches!(s.respond(&Message::new(GossipTypes::Def, ""), origin), GossipAction::Nothing));
    assert_eq!(s.peer_count(), 2);
}

#[test]
fn socket_address_parts() {
    let v6 = SocketAddress::V6 { ip: 1, port: 8080, flowinfo: 0, scope_id: 3 };
    assert_eq!(v6.ip(), IpAddress::V6(1));
    assert_eq!(v6.port(), 8080);
    assert_eq!(conn(9).ip(), IpAddress::V4(0x7f00_0001));
    assert_eq!(conn(9).port(), 9);
    assert_ne!(v6, SocketAddress::V6 { ip: 1, port: 8080, flowinfo: 0, scope_id: 4 });
}

#[test]
fn http_server_keeps_its_address() {
    let s = HttpServer::new(IpAddress::V6(0), 80);
    assert_eq!(s.get_addr(), IpAddress::V6(0));
    assert_eq!(s.port, 80);
}

#[test]
fn connection_steps() {
    assert_eq!(next_connection_action(ReadOutcome::Read(0)), ConnectionAction::Close);
    assert_eq!(next_connection_action(ReadOutcome::Read(12)), ConnectionAction::Process);
    assert_eq!(next_connection_action(ReadOutcome::WouldBlock), ConnectionAction::Retry);
    assert_eq!(next_connection_action(ReadOutcome::Failed), ConnectionAction::Retry);
}

#[test]
fn command_line_decisions() {
    let c = Cli { command: Some(Commands::Start { address: "127.0.0.1".to_string(), port: 3000 }) };
    let (a, p) = c.server_to_start().expect("start");
    assert_eq!((a.as_str(), p), ("127.0.0.1", 3000));
    assert!(Cli { command: None }.server_to_start().is_none());
    assert_eq!(p2p_port(3000), 3001);
    assert_eq!(p2p_port(65534), 65535);
}
