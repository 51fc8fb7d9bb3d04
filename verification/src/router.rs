//! The HTTP route table: request keys (method followed by path) mapped to
//! handlers. The handlers themselves are opaque to the table; the table only
//! decides which one a request goes to, or that the request is answered with
//! "404 Not Found".
//!
//! The table is a list of key/handler pairs whose keys are pairwise
//! distinct; its view is the finite map from each key's text to the handler
//! stored with it. Looking a key up compares it with each key in turn.

use vstd::prelude::*;
use vstd::string::*;

use crate::table::{keys_distinct, lemma_map_of_absent, lemma_map_of_at, lemma_map_of_finite,
    lemma_map_of_push, lemma_map_of_update, map_of};

verus! {

/// The status of the reply to a request that no handler takes.
pub const NOT_FOUND_STATUS: u16 = 404;

/// The handler a table sends key `k` to: the key must be present with a
/// handler attached.
pub open spec fn handler_for<K, H>(m: Map<K, Option<H>>, k: K) -> Option<H> {
    if m.contains_key(k) {
        m[k]
    } else {
        None
    }
}

/// Once a handler is registered for a key, that key goes to it; every other
/// key goes where it went before. This holds of both route tables, the
/// HTTP one and the gossip one.
pub proof fn law_route_after_add<K, H>(m: Map<K, Option<H>>, key: K, h: H, other: K)
    ensures
        handler_for(m.insert(key, Some(h)), key) == Some(h),
        other != key ==> handler_for(m.insert(key, Some(h)), other) == handler_for(m, other),
{
}

/// A table that nothing was registered in sends no key to a handler.
pub proof fn law_empty_table_routes_nothing<K, H>(key: K)
    ensures
        handler_for(Map::<K, Option<H>>::empty(), key) is None,
{
}

/// What a request key leads to.
pub enum Route<'a, H> {
    /// The request goes to this handler.
    Handler(&'a H),
    /// The request is answered directly.
    Reply { status: u16, body: String },
}

/// Routes HTTP requests by their key.
pub struct Router<H> {
    handlers: Vec<(String, Option<H>)>,
}

impl<H> Router<H> {
    /// The table's entries as pairs of key text and handler.
    pub closed spec fn entries(&self) -> Seq<(Seq<char>, Option<H>)> {
        self.handlers@.map_values(|e: (String, Option<H>)| (e.0@, e.1))
    }

    #[verifier::type_invariant]
    closed spec fn inv(&self) -> bool {
        keys_distinct(self.entries())
    }

    /// The table as a map from key text to the (optional) handler stored there.
    pub closed spec fn view(&self) -> Map<Seq<char>, Option<H>> {
        map_of(self.entries())
    }

    /// An empty table.
    pub fn new() -> (r: Self)
        ensures
            r.view() == Map::<Seq<char>, Option<H>>::empty(),
            r.view().dom().finite(),
    {
        let r = Router { handlers: Vec::new() };
        assert(r.entries() =~= Seq::<(Seq<char>, Option<H>)>::empty());
        r
    }

    /// The position of `key` in the table, if it is there.
    fn position(handlers: &Vec<(String, Option<H>)>, key: &String) -> (r: Option<usize>)
        ensures
            match r {
                Some(i) => i < handlers@.len() && handlers@[i as int].0@ == key@,
                None => forall|i: int|
                    0 <= i < handlers@.len() ==> (#[trigger] handlers@[i]).0@ != key@,
            },
    {
        let mut i: usize = 0;
        while i < handlers.len()
            invariant
                i <= handlers@.len(),
                forall|j: int| 0 <= j < i ==> (#[trigger] handlers@[j]).0@ != key@,
            decreases handlers@.len() - i,
        {
            if handlers[i].0 == *key {
                return Some(i);
            }
            i = i + 1;
        }
        None
    }

    /// Registers `f` as the handler of `key`, replacing any handler the key
    /// had.
    pub fn add_handler(&mut self, key: String, f: H)
        ensures
            final(self).view() == old(self).view().insert(key@, Some(f)),
            final(self).view().dom().finite(),
            final(self).view().dom().len() == old(self).view().dom().len() + (if old(
                self,
            ).view().contains_key(key@) {
                0int
            } else {
                1int
            }),
    {
        proof {
            use_type_invariant(&*self);
            lemma_map_of_finite(self.entries());
        }
        let ghost old_entries = self.entries();
        let mut handlers: Vec<(String, Option<H>)> = Vec::new();
        std::mem::swap(&mut handlers, &mut self.handlers);
        let ghost s = handlers@.map_values(|e: (String, Option<H>)| (e.0@, e.1));
        assert(s =~= old_entries);
        match Self::position(&handlers, &key) {
            Some(i) => {
                proof {
                    lemma_map_of_update(s, i as int, Some(f));
                }
                handlers.set(i, (key, Some(f)));
                assert(handlers@.map_values(|e: (String, Option<H>)| (e.0@, e.1))
                    =~= s.update(i as int, (s[i as int].0, Some(f))));
            },
            None => {
                let ghost k = key@;
                proof {
                    assert forall|j: int| 0 <= j < s.len() implies (#[trigger] s[j]).0 != k by {
                        assert(s[j].0 == handlers@[j].0@);
                    }
                    lemma_map_of_push(s, k, Some(f));
                }
                handlers.push((key, Some(f)));
                assert(handlers@.map_values(|e: (String, Option<H>)| (e.0@, e.1))
                    =~= s.push((k, Some(f))));
            },
        }
        self.handlers = handlers;
    }

    /// Where a request with key `key` goes: to the handler registered for it,
    /// or, when there is none, a 404 reply whose body is "404 Not Found".
    pub fn handle(&self, key: &String) -> (r: Route<'_, H>)
        ensures
            match handler_for(self.view(), key@) {
                Some(h) => r matches Route::Handler(x) && *x == h,
                None => r matches Route::Reply { status, body } && status == NOT_FOUND_STATUS
                    && body@ == "404 Not Found"@,
            },
    {
        proof {
            use_type_invariant(self);
            reveal_strlit("404 Not Found");
        }
        let ghost s = self.entries();
        match Self::position(&self.handlers, key) {
            Some(i) => {
                proof {
                    assert(s[i as int].0 == key@);
                    lemma_map_of_at(s, i as int);
                }
                match &self.handlers[i].1 {
                    Some(h) => Route::Handler(h),
                    None => Route::Reply {
                        status: NOT_FOUND_STATUS,
                        body: String::from_str("404 Not Found"),
                    },
                }
            },
            None => {
                proof {
                    assert forall|j: int| 0 <= j < s.len() implies (#[trigger] s[j]).0 != key@ by {
                        assert(s[j].0 == self.handlers@[j].0@);
                    }
                    lemma_map_of_absent(s, key@);
                }
                Route::Reply { status: NOT_FOUND_STATUS, body: String::from_str("404 Not Found") }
            },
        }
    }
}

} // verus!
