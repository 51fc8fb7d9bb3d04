use bitfab::http_core::Server;
use bitfab::p2p::message::{GossipTypes, Message};
use bitfab::p2p::router::{Dispatch, Router as GossipRouter};
use bitfab::router::{Route, Router, NOT_FOUND_STATUS};
use bitfab::{p2p_routes, routes};

fn route_of(r: &Router<u32>, key: &str) -> Result<u32, (u16, String)> {
    match r.handle(&key.to_string()) {
        Route::Handler(h) => Ok(*h),
        Route::Reply { status, body } => Err((status, body)),
    }
}

fn dispatch_of(r: &GossipRouter<u32>, kind: GossipTypes) -> Result<u32, String> {
    match r.handle(&Message::new(kind, "")) {
        Dispatch::Handler(h) => Ok(*h),
        Dispatch::Reply(text) => Err(text),
    }
}

#[test]
fn empty_router_answers_not_found() {
    let r: Router<u32> = Router::new();
    assert_eq!(route_of(&r, "GET/"), Err((404, "404 Not Found".to_string())));
    assert_eq!(NOT_FOUND_STATUS, 404);
}

#[test]
fn added_handler_is_found_and_others_are_not() {
    let mut r: Router<u32> = Router::new();
    r.add_handler("GET/".to_string(), 1);
    r.add_handler("GET/hello".to_string(), 2);
    assert_eq!(route_of(&r, "GET/"), Ok(1));
    assert_eq!(route_of(&r, "GET/hello"), Ok(2));
    assert_eq!(route_of(&r, "POST/"), Err((404, "404 Not Found".to_string())));
    assert_eq!(route_of(&r, "GET/hello/"), Err((404, "404 Not Found".to_string())));
}

#[test]
fn adding_a_key_again_replaces_its_handler() {
    let mut r: Router<u32> = Router::new();
    r.add_handler("GET/".to_string(), 1);
    r.add_handler("GET/x".to_string(), 5);
    r.add_handler("GET/".to_string(), 3);
    assert_eq!(route_of(&r, "GET/"), Ok(3));
    assert_eq!(route_of(&r, "GET/x"), Ok(5));
}

#[test]
fn http_configure_registers_home_and_hello() {
    let mut r: Router<&str> = Router::new();
    routes::configure(&mut r, "home", "hello");
    match r.handle(&"GET/".to_string()) {
        Route::Handler(h) => assert_eq!(*h, "home"),
        _ => panic!("GET/ not routed"),
    }
    match r.handle(&"GET/hello".to_string()) {
        Route::Handler(h) => assert_eq!(*h, "hello"),
        _ => panic!("GET/hello not routed"),
    }
}

#[test]
fn request_key_joins_method_and_uri() {
    assert_eq!(Server::request_key("GET", "/hello"), "GET/hello");
    assert_eq!(Server::request_key("POST", "/a?b=c"), "POST/a?b=c");
    assert_eq!(Server::request_key("", ""), "");
}

#[test]
fn gossip_router_starts_empty() {
    let r: GossipRouter<u32> = GossipRouter::new();
    assert_eq!(dispatch_of(&r, GossipTypes::Ping), Err("Path not found".to_string()));
}

#[test]
fn gossip_router_dispatches_by_kind() {
    let mut r: GossipRouter<u32> = GossipRouter::new();
    r.add_handler(GossipTypes::Ping, 10);
    r.add_handler(GossipTypes::Pong, 20);
    r.add_handler(GossipTypes::Ping, 11);
    assert_eq!(dispatch_of(&r, GossipTypes::Ping), Ok(11));
    assert_eq!(dispatch_of(&r, GossipTypes::Pong), Ok(20));
    assert_eq!(dispatch_of(&r, GossipTypes::Def), Err("Path not found".to_string()));
}

#[test]
fn gossip_configure_registers_five_kinds() {
    let mut r: GossipRouter<u32> = GossipRouter::new();
    p2p_routes::configure(&mut r, 7);
    assert_eq!(dispatch_of(&r, GossipTypes::Ping), Ok(7));
    assert_eq!(dispatch_of(&r, GossipTypes::Pong), Ok(7));
    assert_eq!(dispatch_of(&r, GossipTypes::RequestServerInfo), Ok(7));
    assert_eq!(dispatch_of(&r, GossipTypes::ProcessServerInfo), Ok(7));
    assert_eq!(dispatch_of(&r, GossipTypes::ProcessNewPeer), Ok(7));
    assert_eq!(dispatch_of(&r, GossipTypes::Def), Err("Path not found".to_string()));
}
