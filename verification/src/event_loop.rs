//! The event loop's tables: which token belongs to which session.
//!
//! The loop owns every session. It hands out a fresh pair of tokens for each
//! accepted connection, finds the session that a readiness event is meant
//! for, lets it handle the event, and forgets it once it has ended. Polling
//! and the sockets themselves stay with the driver.

use crate::cacher::Cacher;
use crate::connection_source::ConnectionSource;
use crate::forward_table::ForwardTable;
use crate::session_laws::{law_step_is_orderly, orderly};
use crate::session_model::{
    asks_cache, initial, served, served_with, stale, step, Action, Input, SessionView,
    IDLE_LIMIT_MS,
};
use std::collections::HashMap;
use vstd::prelude::*;
use vstd::std_specs::iter::IteratorSpec;

verus! {

broadcast use vstd::std_specs::hash::group_hash_axioms;

/// The token of the listener for TLS connections.
pub const HTTPS_SERVER: usize = 0;

/// The token of the listener for plain connections.
pub const HTTP_SERVER: usize = 1;

/// The first token that a session is given.
pub const FIRST_TOKEN: usize = 2;

/// What a token stands for.
#[derive(Clone, Copy, Debug, PartialEq, Eq, Structural)]
pub enum Route {
    /// One of the two listeners.
    Listener { tls: bool },
    /// A session, named by its client token.
    Session(usize),
    /// Nothing that the loop knows.
    Unknown,
}

/// The sessions of the loop and the tokens that lead to them.
pub struct EventLoop {
    unique_token: usize,
    connections: HashMap<usize, ConnectionSource>,
    forward_connections: HashMap<usize, usize>,
}

/// What `token` stands for, given the sessions by their client tokens and the
/// client token of each backend token.
pub open spec fn route_of(
    sessions: Map<usize, SessionView>,
    backers: Map<usize, usize>,
    token: usize,
) -> Route {
    if token == HTTPS_SERVER {
        Route::Listener { tls: true }
    } else if token == HTTP_SERVER {
        Route::Listener { tls: false }
    } else if backers.contains_key(token) && sessions.contains_key(backers[token]) {
        Route::Session(backers[token])
    } else if sessions.contains_key(token) {
        Route::Session(token)
    } else {
        Route::Unknown
    }
}

/// The inactivity timer of the session is armed and has run out at `now`.
pub open spec fn timed_out(s: SessionView, now: u64) -> bool {
    match s.armed {
        Some(t) => stale(t, now),
        None => false,
    }
}

/// The two tables fit together. Client tokens are even and backend tokens
/// odd, so no token serves twice; each session carries the client token it is
/// filed under and the backend token that follows it; each backend token
/// leads to its session; every token in use lies below the next to be handed
/// out; and no session in the table is closed.
pub open spec fn tables_fit(
    next: usize,
    sessions: Map<usize, SessionView>,
    backers: Map<usize, usize>,
) -> bool {
    &&& next >= FIRST_TOKEN
    &&& next % 2 == 0
    &&& forall|k: usize| #[trigger]
        sessions.contains_key(k) ==> {
            &&& k >= FIRST_TOKEN
            &&& k % 2 == 0
            &&& k + 1 < next
            &&& sessions[k].server_token == k
            &&& sessions[k].forward_token == k + 1
            &&& !sessions[k].closed
            &&& backers.contains_key((k + 1) as usize)
        }
    &&& forall|f: usize| #[trigger]
        backers.contains_key(f) ==> {
            &&& f % 2 == 1
            &&& f == backers[f] + 1
            &&& sessions.contains_key(backers[f])
        }
}

impl EventLoop {
    /// The sessions, by their client tokens.
    pub closed spec fn sessions(&self) -> Map<usize, SessionView> {
        self.connections@.map_values(|c: ConnectionSource| c@)
    }

    /// The client token of each backend token.
    pub closed spec fn backers(&self) -> Map<usize, usize> {
        self.forward_connections@
    }

    /// The token that the next accepted connection gets.
    pub closed spec fn next_token(&self) -> usize {
        self.unique_token
    }

    pub open spec fn wf(&self) -> bool {
        tables_fit(self.next_token(), self.sessions(), self.backers())
    }

    /// A loop without sessions.
    pub fn new() -> (r: Self)
        ensures
            r.wf(),
            r.next_token() == FIRST_TOKEN,
            r.sessions() == Map::<usize, SessionView>::empty(),
            r.backers() == Map::<usize, usize>::empty(),
    {
        let r = EventLoop {
            unique_token: FIRST_TOKEN,
            connections: HashMap::new(),
            forward_connections: HashMap::new(),
        };
        assert(r.sessions() =~= Map::<usize, SessionView>::empty());
        r
    }

    /// What `token` stands for.
    pub fn route(&self, token: usize) -> (r: Route)
        requires
            self.wf(),
        ensures
            r == route_of(self.sessions(), self.backers(), token),
    {
        if token == HTTPS_SERVER {
            Route::Listener { tls: true }
        } else if token == HTTP_SERVER {
            Route::Listener { tls: false }
        } else {
            match self.forward_connections.get(&token) {
                Some(client) => {
                    let client: usize = *client;
                    assert(self.sessions().contains_key(client));
                    Route::Session(client)
                },
                None => {
                    if self.connections.contains_key(&token) {
                        Route::Session(token)
                    } else {
                        Route::Unknown
                    }
                },
            }
        }
    }

    /// Takes in a connection that a listener has accepted: hands out the next
    /// two tokens, the first for the client and the second for the backend,
    /// and files a fresh session under them. Returns the client token, or
    /// nothing when the tokens have run out, in which case nothing changes.
    pub fn do_server_accept(&mut self, tls: bool) -> (r: Option<usize>)
        requires
            old(self).wf(),
        ensures
            final(self).wf(),
            match r {
                Some(client) => {
                    &&& client == old(self).next_token()
                    &&& final(self).next_token() == client + 2
                    &&& !old(self).sessions().contains_key(client)
                    &&& !old(self).backers().contains_key((client + 1) as usize)
                    &&& final(self).sessions() == old(self).sessions().insert(
                        client,
                        initial(client, (client + 1) as usize, tls),
                    )
                    &&& final(self).backers() == old(self).backers().insert(
                        (client + 1) as usize,
                        client,
                    )
                },
                None => {
                    &&& old(self).next_token() + 2 > usize::MAX
                    &&& final(self).next_token() == old(self).next_token()
                    &&& final(self).sessions() == old(self).sessions()
                    &&& final(self).backers() == old(self).backers()
                },
            },
    {
        let client: usize = self.unique_token;
        if client > usize::MAX - 2 {
            return None;
        }
        let backend: usize = client + 1;
        let session = ConnectionSource::new(client, backend, tls);
        proof {
            if old(self).sessions().contains_key(client) {
                assert(client + 1 < old(self).next_token());
            }
            if old(self).backers().contains_key(backend) {
                assert(old(self).sessions().contains_key(old(self).backers()[backend]));
            }
        }
        self.unique_token = client + 2;
        self.connections.insert(client, session);
        self.forward_connections.insert(backend, client);
        proof {
            assert(self.sessions() =~= old(self).sessions().insert(
                client,
                initial(client, backend, tls),
            ));
            assert forall|k: usize| #[trigger] self.sessions().contains_key(k) implies {
                &&& k >= FIRST_TOKEN
                &&& k % 2 == 0
                &&& k + 1 < self.next_token()
                &&& self.sessions()[k].server_token == k
                &&& self.sessions()[k].forward_token == k + 1
                &&& !self.sessions()[k].closed
                &&& self.backers().contains_key((k + 1) as usize)
            } by {
                if k != client {
                    assert(old(self).sessions().contains_key(k));
                }
            }
            assert forall|f: usize| #[trigger] self.backers().contains_key(f) implies {
                &&& f % 2 == 1
                &&& f == self.backers()[f] + 1
                &&& self.sessions().contains_key(self.backers()[f])
            } by {
                if f != backend {
                    assert(old(self).backers().contains_key(f));
                }
            }
        }
        Some(client)
    }

    /// Forgets the session filed under `client`, with its backend token.
    /// This is what follows a failed registration, and the end of a session.
    pub fn discard(&mut self, client: usize)
        requires
            old(self).wf(),
        ensures
            final(self).wf(),
            final(self).next_token() == old(self).next_token(),
            final(self).sessions() == old(self).sessions().remove(client),
            old(self).sessions().contains_key(client) ==> final(self).backers() == old(
                self,
            ).backers().remove((client + 1) as usize),
            !old(self).sessions().contains_key(client) ==> final(self).backers() == old(
                self,
            ).backers(),
    {
        if !self.connections.contains_key(&client) {
            assert(self.sessions() =~= old(self).sessions().remove(client));
            return ;
        }
        assert(old(self).sessions().contains_key(client));
        let backend: usize = client + 1;
        let _ = self.connections.remove(&client);
        let _ = self.forward_connections.remove(&backend);
        proof {
            assert(self.sessions() =~= old(self).sessions().remove(client));
            assert(self.backers() =~= old(self).backers().remove(backend));
            assert forall|k: usize| #[trigger] self.sessions().contains_key(k) implies {
                &&& k >= FIRST_TOKEN
                &&& k % 2 == 0
                &&& k + 1 < self.next_token()
                &&& self.sessions()[k].server_token == k
                &&& self.sessions()[k].forward_token == k + 1
                &&& !self.sessions()[k].closed
                &&& self.backers().contains_key((k + 1) as usize)
            } by {
                assert(old(self).sessions().contains_key(k));
            }
            assert forall|f: usize| #[trigger] self.backers().contains_key(f) implies {
                &&& f % 2 == 1
                &&& f == self.backers()[f] + 1
                &&& self.sessions().contains_key(self.backers()[f])
            } by {
                assert(old(self).backers().contains_key(f));
            }
        }
    }

    /// The session filed under the client token `client`.
    pub fn session(&self, client: usize) -> (r: Option<&ConnectionSource>)
        requires
            self.wf(),
        ensures
            match r {
                Some(c) => self.sessions().contains_key(client) && self.sessions()[client] == c@,
                None => !self.sessions().contains_key(client),
            },
    {
        self.connections.get(&client)
    }

    /// Number of sessions that the loop holds.
    pub fn len(&self) -> (n: usize)
        requires
            self.wf(),
        ensures
            n == self.sessions().dom().len(),
    {
        assert(self.sessions().dom() =~= self.connections@.dom());
        self.connections.len()
    }

    /// The sessions whose inactivity timer has run out at `now`, by their
    /// client tokens, in no particular order. These are the sessions that a
    /// pass of the loop has to tick even when no event has arrived for them.
    pub fn expired(&self, now: u64) -> (r: Vec<usize>)
        requires
            self.wf(),
        ensures
            forall|k: usize|
                r@.contains(k) <==> self.sessions().contains_key(k) && timed_out(
                    self.sessions()[k],
                    now,
                ),
    {
        let mut r: Vec<usize> = Vec::new();
        let ghost all = self.connections.keys().remaining().unref();
        proof {
            vstd::std_specs::hash::axiom_spec_keys_iter(&self.connections);
        }
        for k in it: self.connections.keys()
            invariant
                it.seq().unref() == all,
                all.to_set() == self.connections@.dom(),
                forall|x: usize|
                    r@.contains(x) <==> exists|j: int|
                        0 <= j < it.index() && #[trigger] all[j] == x && timed_out(
                            self.sessions()[x],
                            now,
                        ),
        {
            let ghost before = r@;
            let ghost n = it.index() as int;
            assert(all[n] == *k);
            assert(all.to_set().contains(*k));
            let late = match self.connections.get(k) {
                Some(session) => match session.activity_timeout() {
                    Some(t) => now > t && now - t > IDLE_LIMIT_MS,
                    None => false,
                },
                None => false,
            };
            assert(late == timed_out(self.sessions()[*k], now));
            if late {
                r.push(*k);
            }
            proof {
                assert forall|x: usize|
                    r@.contains(x) <==> exists|j: int|
                        0 <= j < n + 1 && #[trigger] all[j] == x && timed_out(
                            self.sessions()[x],
                            now,
                        ) by {
                    if r@.contains(x) {
                        let i = choose|i: int| 0 <= i < r@.len() && r@[i] == x;
                        if i < before.len() {
                            assert(before[i] == x);
                            assert(before.contains(x));
                            let j = choose|j: int|
                                0 <= j < n && #[trigger] all[j] == x && timed_out(
                                    self.sessions()[x],
                                    now,
                                );
                            assert(0 <= j < n + 1 && all[j] == x);
                        } else {
                            assert(x == *k);
                            assert(0 <= n < n + 1 && all[n] == x);
                        }
                    }
                    if exists|j: int|
                        0 <= j < n + 1 && #[trigger] all[j] == x && timed_out(
                            self.sessions()[x],
                            now,
                        ) {
                        let j = choose|j: int|
                            0 <= j < n + 1 && #[trigger] all[j] == x && timed_out(
                                self.sessions()[x],
                                now,
                            );
                        if j < n {
                            assert(0 <= j < n && all[j] == x);
                            assert(before.contains(x));
                            let i = choose|i: int| 0 <= i < before.len() && before[i] == x;
                            assert(r@[i] == x);
                        } else {
                            assert(x == *k);
                            assert(late);
                            assert(r@[before.len() as int] == x);
                        }
                    }
                }
            }
        }
        proof {
            assert forall|k: usize|
                self.sessions().contains_key(k) && timed_out(self.sessions()[k], now) implies r@.contains(
                k,
            ) by {
                assert(all.to_set().contains(k));
                let j = choose|j: int| 0 <= j < all.len() && all[j] == k;
                assert(all[j] == k);
            }
            assert forall|k: usize| r@.contains(k) implies self.sessions().contains_key(k) by {
                let j = choose|j: int| 0 <= j < all.len() && #[trigger] all[j] == k;
                assert(all.to_set().contains(all[j]));
            }
        }
        r
    }

    /// Hands `input` to the session that `token` leads to and returns what
    /// the session asks for. A session that ends by it is forgotten, with
    /// both its tokens. A token that leads to no session is answered with
    /// `Gone`, and nothing changes.
    pub fn dispatch<C: Cacher>(
        &mut self,
        token: usize,
        input: Input,
        now: u64,
        forwards: &ForwardTable,
        cacher: &mut C,
    ) -> (a: Action)
        requires
            old(self).wf(),
            forwards.wf(),
        ensures
            final(self).wf(),
            final(self).next_token() == old(self).next_token(),
            !asks_cache(a),
            match route_of(old(self).sessions(), old(self).backers(), token) {
                Route::Session(client) => exists|t: SessionView|
                    {
                        &&& #[trigger] served(
                            old(self).sessions()[client],
                            input,
                            now,
                            *forwards,
                            t,
                            a,
                        )
                        &&& if a is Close {
                            &&& final(self).sessions() == old(self).sessions().remove(client)
                            &&& final(self).backers() == old(self).backers().remove(
                                (client + 1) as usize,
                            )
                        } else {
                            &&& final(self).sessions() == old(self).sessions().insert(client, t)
                            &&& final(self).backers() == old(self).backers()
                        }
                    },
                _ => {
                    &&& a == Action::Gone
                    &&& final(self).sessions() == old(self).sessions()
                    &&& final(self).backers() == old(self).backers()
                },
            },
    {
        let client: usize = match self.route(token) {
            Route::Session(client) => client,
            _ => {
                return Action::Gone;
            },
        };
        let backend: usize = client + 1;
        let mut session = match self.connections.remove(&client) {
            Some(s) => s,
            None => {
                return Action::Gone;
            },
        };
        let ghost before = session@;
        let ghost rest = self.sessions();
        assert(rest =~= old(self).sessions().remove(client));
        assert(before == old(self).sessions()[client]);
        let a = session.handle_connection_event(input, now, forwards, cacher);
        let ghost after = session@;
        proof {
            let found = choose|found: Option<Vec<u8>>|
                (after, a) == #[trigger] served_with(before, input, now, *forwards, found);
            lemma_served_is_orderly(before, input, now, *forwards, found);
        }
        match a {
            Action::Close => {
                let _ = self.forward_connections.remove(&backend);
                proof {
                    assert(self.backers() =~= old(self).backers().remove(backend));
                    assert forall|k: usize| #[trigger] self.sessions().contains_key(k) implies {
                        &&& k >= FIRST_TOKEN
                        &&& k % 2 == 0
                        &&& k + 1 < self.next_token()
                        &&& self.sessions()[k].server_token == k
                        &&& self.sessions()[k].forward_token == k + 1
                        &&& !self.sessions()[k].closed
                        &&& self.backers().contains_key((k + 1) as usize)
                    } by {
                        assert(old(self).sessions().contains_key(k));
                    }
                    assert forall|f: usize| #[trigger] self.backers().contains_key(f) implies {
                        &&& f % 2 == 1
                        &&& f == self.backers()[f] + 1
                        &&& self.sessions().contains_key(self.backers()[f])
                    } by {
                        assert(old(self).backers().contains_key(f));
                    }
                }
            },
            _ => {
                self.connections.insert(client, session);
                proof {
                    assert(self.sessions() =~= old(self).sessions().insert(client, after));
                    assert forall|k: usize| #[trigger] self.sessions().contains_key(k) implies {
                        &&& k >= FIRST_TOKEN
                        &&& k % 2 == 0
                        &&& k + 1 < self.next_token()
                        &&& self.sessions()[k].server_token == k
                        &&& self.sessions()[k].forward_token == k + 1
                        &&& !self.sessions()[k].closed
                        &&& self.backers().contains_key((k + 1) as usize)
                    } by {
                        assert(old(self).sessions().contains_key(k));
                    }
                    assert forall|f: usize| #[trigger] self.backers().contains_key(f) implies {
                        &&& f % 2 == 1
                        &&& f == self.backers()[f] + 1
                        &&& self.sessions().contains_key(self.backers()[f])
                    } by {
                        assert(old(self).backers().contains_key(f));
                    }
                }
            },
        }
        a
    }
}

/// The two tokens of a session differ from each other and from the tokens
/// of every other session, and none of them is a listener's.
pub proof fn law_tokens_are_distinct(
    next: usize,
    sessions: Map<usize, SessionView>,
    backers: Map<usize, usize>,
    a: usize,
    b: usize,
)
    requires
        tables_fit(next, sessions, backers),
        sessions.contains_key(a),
        sessions.contains_key(b),
    ensures
        sessions[a].server_token != sessions[a].forward_token,
        sessions[a].server_token != HTTPS_SERVER && sessions[a].server_token != HTTP_SERVER,
        sessions[a].forward_token != HTTPS_SERVER && sessions[a].forward_token != HTTP_SERVER,
        a != b ==> sessions[a].server_token != sessions[b].server_token
            && sessions[a].forward_token != sessions[b].forward_token
            && sessions[a].server_token != sessions[b].forward_token,
        route_of(sessions, backers, sessions[a].server_token) == Route::Session(a),
        route_of(sessions, backers, sessions[a].forward_token) == Route::Session(a),
{
    assert(backers.contains_key((a + 1) as usize));
    if backers.contains_key(a) {
        assert(a % 2 == 1);
    }
}

/// A call of the event handler keeps an open session in order, whatever the
/// cache answers.
pub proof fn lemma_served_is_orderly(
    s: SessionView,
    input: Input,
    now: u64,
    forwards: ForwardTable,
    found: Option<Vec<u8>>,
)
    requires
        !s.closed,
    ensures
        orderly(
            s,
            served_with(s, input, now, forwards, found).0,
            served_with(s, input, now, forwards, found).1,
        ),
{
    law_step_is_orderly(s, input, now, forwards);
    let first = step(s, input, now, forwards);
    if first.1 is LookupCache {
        law_step_is_orderly(first.0, Input::Cached(found), now, forwards);
    } else if first.1 is RecordCache {
        law_step_is_orderly(first.0, Input::Done, now, forwards);
    }
}

} // verus!
