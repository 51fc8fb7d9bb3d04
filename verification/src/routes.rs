//! The HTTP routes of a node.

use vstd::prelude::*;

use crate::http_core::Server;
use crate::router::Router;

verus! {

/// Registers `home` for `GET /` and `hello` for `GET /hello`.
pub fn configure<H>(router: &mut Router<H>, home: H, hello: H)
    ensures
        final(router).view() == old(router).view().insert("GET/"@, Some(home)).insert(
            "GET/hello"@,
            Some(hello),
        ),
{
    proof {
        reveal_strlit("GET");
        reveal_strlit("/");
        reveal_strlit("/hello");
        reveal_strlit("GET/");
        reveal_strlit("GET/hello");
    }
    let home_key = Server::request_key("GET", "/");
    let hello_key = Server::request_key("GET", "/hello");
    assert(home_key@ =~= "GET/"@);
    assert(hello_key@ =~= "GET/hello"@);
    router.add_handler(home_key, home);
    router.add_handler(hello_key, hello);
}

} // verus!
