//! The gossip route table: gossip kinds mapped to handlers. The handlers are
//! opaque to the table; it only decides which one a message goes to, or the
//! text a message is answered with when none takes it.
//!
//! The table is a `HashMap` keyed by the number of each kind
//! (`kind_code`); its view is the finite map from each kind whose number is
//! a key to the handler stored there.

use std::collections::HashMap;
use vstd::prelude::*;
use vstd::string::*;

use crate::p2p::message::{GossipTypes, Message};
use crate::router::handler_for;

verus! {

broadcast use vstd::std_specs::hash::group_hash_axioms;

/// The number that stands for a gossip kind in the table.
pub open spec fn kind_code(k: GossipTypes) -> u8 {
    match k {
        GossipTypes::Ping => 0,
        GossipTypes::Pong => 1,
        GossipTypes::RequestServerInfo => 2,
        GossipTypes::ProcessServerInfo => 3,
        GossipTypes::ProcessNewPeer => 4,
        GossipTypes::Def => 5,
    }
}

/// The number that stands for `k` in the table.
fn code_of(k: GossipTypes) -> (c: u8)
    ensures
        c == kind_code(k),
{
    match k {
        GossipTypes::Ping => 0,
        GossipTypes::Pong => 1,
        GossipTypes::RequestServerInfo => 2,
        GossipTypes::ProcessServerInfo => 3,
        GossipTypes::ProcessNewPeer => 4,
        GossipTypes::Def => 5,
    }
}

/// All gossip kinds.
pub open spec fn all_kinds() -> Set<GossipTypes> {
    set![
        GossipTypes::Ping,
        GossipTypes::Pong,
        GossipTypes::RequestServerInfo,
        GossipTypes::ProcessServerInfo,
        GossipTypes::ProcessNewPeer,
        GossipTypes::Def,
    ]
}

/// What a gossip message leads to.
pub enum Dispatch<'a, H> {
    /// The message goes to this handler.
    Handler(&'a H),
    /// The message is answered with this text.
    Reply(String),
}

/// Routes gossip messages by their kind.
pub struct Router<H> {
    handlers: HashMap<u8, Option<H>>,
}

impl<H> Router<H> {
    /// The table as a map from gossip kind to the (optional) handler stored
    /// there.
    pub closed spec fn view(&self) -> Map<GossipTypes, Option<H>> {
        Map::new(
            |k: GossipTypes| self.handlers@.contains_key(kind_code(k)),
            |k: GossipTypes| self.handlers@[kind_code(k)],
        )
    }

    /// The table holds finitely many kinds.
    proof fn lemma_view_finite(&self)
        ensures
            self.view().dom().finite(),
    {
        assert(all_kinds().finite());
        assert(self.view().dom().subset_of(all_kinds())) by {
            assert forall|k: GossipTypes| self.view().dom().contains(k) implies all_kinds().contains(
                k,
            ) by {
                match k {
                    GossipTypes::Ping => {},
                    GossipTypes::Pong => {},
                    GossipTypes::RequestServerInfo => {},
                    GossipTypes::ProcessServerInfo => {},
                    GossipTypes::ProcessNewPeer => {},
                    GossipTypes::Def => {},
                }
            }
        }
        vstd::set_lib::lemma_set_subset_finite(all_kinds(), self.view().dom());
    }

    /// An empty table.
    pub fn new() -> (r: Self)
        ensures
            r.view() == Map::<GossipTypes, Option<H>>::empty(),
            r.view().dom().finite(),
    {
        let r = Router { handlers: HashMap::new() };
        assert(r.view() =~= Map::<GossipTypes, Option<H>>::empty());
        r
    }

    /// Registers `f` as the handler of messages of kind `key`, replacing any
    /// handler the kind had.
    pub fn add_handler(&mut self, key: GossipTypes, f: H)
        ensures
            final(self).view() == old(self).view().insert(key, Some(f)),
            final(self).view().dom().finite(),
            final(self).view().dom().len() == old(self).view().dom().len() + (if old(
                self,
            ).view().contains_key(key) {
                0int
            } else {
                1int
            }),
    {
        proof {
            self.lemma_view_finite();
        }
        let code = code_of(key);
        self.handlers.insert(code, Some(f));
        proof {
            assert forall|k: GossipTypes| kind_code(k) == code implies k == key by {
                match k {
                    GossipTypes::Ping => {},
                    GossipTypes::Pong => {},
                    GossipTypes::RequestServerInfo => {},
                    GossipTypes::ProcessServerInfo => {},
                    GossipTypes::ProcessNewPeer => {},
                    GossipTypes::Def => {},
                }
                match key {
                    GossipTypes::Ping => {},
                    GossipTypes::Pong => {},
                    GossipTypes::RequestServerInfo => {},
                    GossipTypes::ProcessServerInfo => {},
                    GossipTypes::ProcessNewPeer => {},
                    GossipTypes::Def => {},
                }
            }
            assert(self.view() =~= old(self).view().insert(key, Some(f)));
            self.lemma_view_finite();
        }
    }

    /// Where `msg` goes, by its kind: to the handler registered for the kind;
    /// when the kind is registered without a handler, the reply "No handler
    /// to handle"; when it is not registered, the reply "Path not found".
    pub fn handle(&self, msg: &Message) -> (r: Dispatch<'_, H>)
        ensures
            match handler_for(self.view(), msg.gossip_type) {
                Some(h) => r matches Dispatch::Handler(x) && *x == h,
                None => r matches Dispatch::Reply(text) && text@ == (if self.view().contains_key(
                    msg.gossip_type,
                ) {
                    "No handler to handle"@
                } else {
                    "Path not found"@
                }),
            },
    {
        proof {
            reveal_strlit("No handler to handle");
            reveal_strlit("Path not found");
        }
        let code = code_of(msg.gossip_type);
        match self.handlers.get(&code) {
            Some(entry) => match entry {
                Some(h) => Dispatch::Handler(h),
                None => Dispatch::Reply(String::from_str("No handler to handle")),
            },
            None => Dispatch::Reply(String::from_str("Path not found")),
        }
    }
}

} // verus!
