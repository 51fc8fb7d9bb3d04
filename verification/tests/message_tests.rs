use bitfab::address::IpAddress;
use bitfab::p2p::message::{FromString, GossipTypes, Message, MessageSuccessStatusCode, PeerInfo};
use bitfab::text::trim_white_space;

#[test]
fn from_string_reads_the_three_names() {
    assert_eq!(GossipTypes::from_string(&"ping".to_string()), Ok(GossipTypes::Ping));
    assert_eq!(GossipTypes::from_string(&"pong".to_string()), Ok(GossipTypes::Pong));
    assert_eq!(GossipTypes::from_string(&"default".to_string()), Ok(GossipTypes::Def));
}

#[test]
fn from_string_ignores_surrounding_white_space() {
    assert_eq!(GossipTypes::from_string(&"  ping\n".to_string()), Ok(GossipTypes::Ping));
    assert_eq!(GossipTypes::from_string(&"\tpong \r\n".to_string()), Ok(GossipTypes::Pong));
    assert_eq!(
        GossipTypes::from_string(&"\u{3000}default\u{a0}\u{2009}".to_string()),
        Ok(GossipTypes::Def)
    );
}

#[test]
fn from_string_refuses_other_texts() {
    assert_eq!(GossipTypes::from_string(&"Ping".to_string()), Err(()));
    assert_eq!(GossipTypes::from_string(&"".to_string()), Err(()));
    assert_eq!(GossipTypes::from_string(&"   ".to_string()), Err(()));
    assert_eq!(GossipTypes::from_string(&"p ing".to_string()), Err(()));
    assert_eq!(GossipTypes::from_string(&"pingpong".to_string()), Err(()));
    assert_eq!(GossipTypes::from_string(&"requestserverinfo".to_string()), Err(()));
    assert_eq!(GossipTypes::from_string(&"\u{200b}ping".to_string()), Err(()));
}

#[test]
fn message_new_keeps_kind_and_body() {
    let m = Message::new(GossipTypes::ProcessNewPeer, "hello there");
    assert_eq!(m.gossip_type, GossipTypes::ProcessNewPeer);
    assert_eq!(m.body, "hello there");
    let e = Message::new(GossipTypes::Def, "");
    assert_eq!(e.body, "");
}

#[test]
fn status_codes_exist() {
    let codes = [MessageSuccessStatusCode::Success, MessageSuccessStatusCode::ClosConnection];
    assert_eq!(codes.len(), 2);
}

#[test]
fn trim_matches_std_trim() {
    for s in ["", " ", "a", " a ", "\u{85}x y\u{2028}", "\u{1680}\u{205f}q\u{202f}", "a\u{200b}"] {
        assert_eq!(trim_white_space(s), s.trim());
    }
}

#[test]
fn message_with_peer_info_keeps_it() {
    let m = Message::with_peer_info(GossipTypes::Pong, "Ponging", Some(IpAddress::V4(1)), 3001);
    assert_eq!(m.gossip_type, GossipTypes::Pong);
    assert_eq!(m.body, "Ponging");
    assert_eq!(m.peer_info, Some(PeerInfo { address: Some(IpAddress::V4(1)), port: 3001 }));
    assert_eq!(Message::new(GossipTypes::Ping, "x").peer_info, None);
}
