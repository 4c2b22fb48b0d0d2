//! Per-host cache of authenticated API clients.
//!
//! Building a client needs a secret from the credential store and a network
//! handshake, both done by the caller. The cache decides when they are needed
//! and gives every client it stores an identity that is never issued twice.
use vstd::prelude::*;

use crate::config::Gitlab;

verus! {

/// Why no client could be had for a host.
#[derive(Debug, Clone, PartialEq, Eq)]
pub enum GitlabsError {
    /// The credential store has no secret for the host or could not be read.
    Keyring(String),
    /// Building the client failed (connection, handshake or authentication).
    Gitlab(String),
    /// Every client identity has been issued already.
    Exhausted,
}

/// A cached client and its identity.
pub struct ClientHandle<C> {
    pub id: u64,
    pub client: C,
}

/// Everything that building a client for an instance needs.
#[derive(Debug, Clone)]
pub struct Connect {
    pub host: String,
    pub token: String,
    pub insecure: bool,
    pub cert_insecure: bool,
}

/// Host to client cache: at most one entry per host.
///
/// A `get` is `lookup`; on a miss, the credential store's answer goes to
/// `connect`, the client built from it to `insert`. Callers hold one lock
/// around the whole sequence, so that two gets of one host never both build;
/// should an entry be there anyway, `insert` keeps it.
pub struct Gitlabs<C> {
    entries: Vec<(String, ClientHandle<C>)>,
    next_id: u64,
    model: Ghost<Map<Seq<char>, nat>>,
}

/// A model of the cache is well formed when every identity in it was issued
/// before `next` and no two hosts share one.
pub open spec fn cache_wf(m: Map<Seq<char>, nat>, next: nat) -> bool {
    &&& m.dom().finite()
    &&& forall|h: Seq<char>| #[trigger] m.contains_key(h) ==> m[h] < next
    &&& forall|h1: Seq<char>, h2: Seq<char>|
        #[trigger] m.contains_key(h1) && #[trigger] m.contains_key(h2) && h1 != h2 ==> m[h1]
            != m[h2]
}

/// The model after a successful build for `host`: an existing entry is kept,
/// otherwise the host gets the next identity.
pub open spec fn after_insert(m: Map<Seq<char>, nat>, next: nat, host: Seq<char>) -> (Map<
    Seq<char>,
    nat,
>, nat) {
    if m.contains_key(host) {
        (m, next)
    } else {
        (m.insert(host, next), next + 1)
    }
}

/// Whether a `get` of `host` has to ask the credential store: only on a miss.
pub open spec fn queries_store(m: Map<Seq<char>, nat>, host: Seq<char>) -> bool {
    !m.contains_key(host)
}

/// One `get` of `host` on a cache modelled by `(m, next)`, as `lookup`,
/// `connect` and `insert` carry it out: the new model and the identity handed
/// out, if any. `secret_ok` is whether the credential store gave a secret,
/// `built_ok` whether the client could be built; neither is asked on a hit.
pub open spec fn get_spec(
    m: Map<Seq<char>, nat>,
    next: nat,
    host: Seq<char>,
    secret_ok: bool,
    built_ok: bool,
) -> (Map<Seq<char>, nat>, nat, Option<nat>) {
    if m.contains_key(host) {
        (m, next, Some(m[host]))
    } else if !secret_ok || !built_ok || next >= u64::MAX {
        (m, next, None)
    } else {
        (after_insert(m, next, host).0, after_insert(m, next, host).1, Some(next))
    }
}

/// Two different hosts in the cache never share a client identity, and a
/// `get` keeps that so.
pub proof fn law_distinct_hosts_distinct_clients(
    m: Map<Seq<char>, nat>,
    next: nat,
    h1: Seq<char>,
    h2: Seq<char>,
    secret_ok: bool,
    built_ok: bool,
)
    requires
        cache_wf(m, next),
        m.contains_key(h1),
        m.contains_key(h2),
        h1 != h2,
    ensures
        m[h1] != m[h2],
        cache_wf(
            get_spec(m, next, h1, secret_ok, built_ok).0,
            get_spec(m, next, h1, secret_ok, built_ok).1,
        ),
{
}

/// A client built for a host gets an identity that no other host holds, now
/// or earlier: identities are never reused.
pub proof fn law_new_client_identity_is_fresh(m: Map<Seq<char>, nat>, next: nat, host: Seq<char>)
    requires
        cache_wf(m, next),
        !m.contains_key(host),
        next < u64::MAX,
    ensures
        get_spec(m, next, host, true, true).2 == Some(next),
        forall|h: Seq<char>| #[trigger] m.contains_key(h) ==> m[h] < next,
        cache_wf(get_spec(m, next, host, true, true).0, get_spec(m, next, host, true, true).1),
{
    let m2 = m.insert(host, next);
    assert(m2.dom() == m.dom().insert(host));
}

/// After a `get` of `host` succeeds, a second one (with no `invalidate` in
/// between) is a hit: it hands out the same identity, leaves the cache as it
/// is, and does not ask the credential store.
pub proof fn law_second_get_is_cached(
    m: Map<Seq<char>, nat>,
    next: nat,
    host: Seq<char>,
    secret_ok: bool,
    built_ok: bool,
    secret_ok2: bool,
    built_ok2: bool,
)
    requires
        cache_wf(m, next),
        get_spec(m, next, host, secret_ok, built_ok).2 is Some,
    ensures
        ({
            let (m1, n1, r1) = get_spec(m, next, host, secret_ok, built_ok);
            &&& !queries_store(m1, host)
            &&& get_spec(m1, n1, host, secret_ok2, built_ok2) == (m1, n1, r1)
        }),
{
}

/// After `invalidate(host)`, the next `get` of `host` asks the credential
/// store again, and a client it builds has a new identity.
pub proof fn law_invalidate_forces_new_client(
    m: Map<Seq<char>, nat>,
    next: nat,
    host: Seq<char>,
    secret_ok: bool,
    built_ok: bool,
)
    requires
        cache_wf(m, next),
        m.contains_key(host),
    ensures
        cache_wf(m.remove(host), next),
        queries_store(m.remove(host), host),
        get_spec(m.remove(host), next, host, secret_ok, built_ok).2 is Some ==> get_spec(
            m.remove(host),
            next,
            host,
            secret_ok,
            built_ok,
        ).2 != Some(m[host]),
{
}

/// A `get` whose credential lookup fails hands out nothing and adds no entry
/// for the host.
pub proof fn law_credential_failure_adds_no_entry(
    m: Map<Seq<char>, nat>,
    next: nat,
    host: Seq<char>,
    built_ok: bool,
)
    requires
        cache_wf(m, next),
        !m.contains_key(host),
    ensures
        get_spec(m, next, host, false, built_ok) == (m, next, None::<nat>),
        !get_spec(m, next, host, false, built_ok).0.contains_key(host),
{
}

impl<C> Gitlabs<C> {
    /// Host to client identity.
    pub closed spec fn clients(&self) -> Map<Seq<char>, nat> {
        self.model@
    }

    /// The identity that the next stored client gets.
    pub closed spec fn next_id(&self) -> nat {
        self.next_id as nat
    }

    pub closed spec fn wf(&self) -> bool {
        &&& cache_wf(self.model@, self.next_id as nat)
        &&& forall|i: int|
            0 <= i < self.entries@.len() ==> #[trigger] self.model@.contains_key(
                self.entries@[i].0@,
            ) && self.model@[self.entries@[i].0@] == self.entries@[i].1.id as nat
        &&& forall|h: Seq<char>|
            #[trigger] self.model@.contains_key(h) ==> exists|i: int|
                0 <= i < self.entries@.len() && #[trigger] self.entries@[i].0@ == h
        &&& forall|i: int, j: int|
            0 <= i < self.entries@.len() && 0 <= j < self.entries@.len() && i != j
                ==> #[trigger] self.entries@[i].0@ != #[trigger] self.entries@[j].0@
    }

    /// An empty cache.
    pub fn new() -> (r: Self)
        ensures
            r.wf(),
            r.clients() == Map::<Seq<char>, nat>::empty(),
            r.next_id() == 0,
    {
        Gitlabs { entries: Vec::new(), next_id: 0, model: Ghost(Map::empty()) }
    }

    /// Where the entry of `host` stands in `entries`.
    fn position(&self, host: &String) -> (r: Option<usize>)
        requires
            self.wf(),
        ensures
            r is Some <==> self.clients().contains_key(host@),
            r is Some ==> r->0 < self.entries@.len() && self.entries@[r->0 as int].0@ == host@,
    {
        let mut i: usize = 0;
        while i < self.entries.len()
            invariant
                self.wf(),
                i <= self.entries@.len(),
                forall|j: int| 0 <= j < i ==> self.entries@[j].0@ != host@,
            decreases self.entries@.len() - i,
        {
            if self.entries[i].0 == *host {
                assert(self.model@.contains_key(self.entries@[i as int].0@));
                return Some(i);
            }
            i = i + 1;
        }
        assert(!self.model@.contains_key(host@)) by {
            if self.model@.contains_key(host@) {
                let j = choose|j: int|
                    0 <= j < self.entries@.len() && #[trigger] self.entries@[j].0@ == host@;
                assert(self.entries@[j].0@ == host@);
            }
        }
        None
    }

    /// The cached client of `host`, if any. A hit needs no credential and no
    /// handshake.
    pub fn lookup(&self, host: &String) -> (r: Option<&ClientHandle<C>>)
        requires
            self.wf(),
        ensures
            r is Some <==> self.clients().contains_key(host@),
            r is Some ==> r->0.id as nat == self.clients()[host@],
    {
        match self.position(host) {
            Some(i) => Some(&self.entries[i].1),
            None => None,
        }
    }

    /// What building a client for `config` needs, given what the credential
    /// store answered for its host.
    pub fn connect(config: &Gitlab, secret: Result<String, String>) -> (r: Result<
        Connect,
        GitlabsError,
    >)
        ensures
            secret is Err ==> r == Err::<Connect, GitlabsError>(
                GitlabsError::Keyring(secret->Err_0),
            ),
            secret is Ok ==> r is Ok && r->Ok_0.host@ == config.host@ && r->Ok_0.token@
                == secret->Ok_0@ && r->Ok_0.insecure == config.insecure
                && r->Ok_0.cert_insecure == config.cert_insecure,
    {
        match secret {
            Err(e) => Err(GitlabsError::Keyring(e)),
            Ok(token) => Ok(
                Connect {
                    host: config.host.clone(),
                    token,
                    insecure: config.insecure,
                    cert_insecure: config.cert_insecure,
                },
            ),
        }
    }

    /// Stores the client built for `host` and returns the identity of the
    /// host's entry. An entry that is already there is kept as it is.
    pub fn insert(&mut self, host: &String, built: Result<C, String>) -> (r: Result<
        u64,
        GitlabsError,
    >)
        requires
            old(self).wf(),
        ensures
            final(self).wf(),
            built is Err ==> r == Err::<u64, GitlabsError>(GitlabsError::Gitlab(built->Err_0))
                && final(self).clients() == old(self).clients() && final(self).next_id()
                == old(self).next_id(),
            built is Ok && old(self).clients().contains_key(host@) ==> r is Ok && r->Ok_0 as nat
                == old(self).clients()[host@] && final(self).clients() == old(self).clients()
                && final(self).next_id() == old(self).next_id(),
            built is Ok && !old(self).clients().contains_key(host@) && old(self).next_id()
                == u64::MAX ==> r == Err::<u64, GitlabsError>(GitlabsError::Exhausted)
                && final(self).clients() == old(self).clients() && final(self).next_id()
                == old(self).next_id(),
            built is Ok && !old(self).clients().contains_key(host@) && old(self).next_id()
                < u64::MAX ==> r is Ok && r->Ok_0 as nat == old(self).next_id() && (
            final(self).clients(),
            final(self).next_id(),
            ) == after_insert(old(self).clients(), old(self).next_id(), host@),
    {
        match built {
            Err(e) => Err(GitlabsError::Gitlab(e)),
            Ok(client) => {
                match self.lookup(host) {
                    Some(handle) => {
                        return Ok(handle.id);
                    },
                    None => {},
                }
                if self.next_id == u64::MAX {
                    return Err(GitlabsError::Exhausted);
                }
                let id = self.next_id;
                let ghost old_entries = self.entries@;
                let ghost old_model = self.model@;
                self.entries.push((host.clone(), ClientHandle { id, client }));
                self.next_id = id + 1;
                self.model = Ghost(old_model.insert(host@, id as nat));
                assert forall|h: Seq<char>| #[trigger] self.model@.contains_key(h) implies exists|
                    i: int,
                |
                    0 <= i < self.entries@.len() && #[trigger] self.entries@[i].0@ == h by {
                    if h == host@ {
                        assert(self.entries@[old_entries.len() as int].0@ == h);
                    } else {
                        let i = choose|i: int|
                            0 <= i < old_entries.len() && #[trigger] old_entries[i].0@ == h;
                        assert(self.entries@[i] == old_entries[i]);
                    }
                }
                assert forall|i: int| 0 <= i < self.entries@.len() implies #[trigger]
                    self.model@.contains_key(self.entries@[i].0@)
                        && self.model@[self.entries@[i].0@] == self.entries@[i].1.id as nat by {
                    if i < old_entries.len() {
                        assert(self.entries@[i] == old_entries[i]);
                        assert(old_model.contains_key(old_entries[i].0@));
                    }
                }
                assert forall|i: int, j: int|
                    0 <= i < self.entries@.len() && 0 <= j < self.entries@.len() && i != j
                        implies #[trigger] self.entries@[i].0@ != #[trigger] self.entries@[j].0@ by {
                    let n = old_entries.len() as int;
                    if i < n && j < n {
                        assert(self.entries@[i] == old_entries[i]);
                        assert(self.entries@[j] == old_entries[j]);
                    } else if i < n {
                        assert(self.entries@[i] == old_entries[i]);
                        assert(old_model.contains_key(old_entries[i].0@));
                    } else if j < n {
                        assert(self.entries@[j] == old_entries[j]);
                        assert(old_model.contains_key(old_entries[j].0@));
                    }
                }
                Ok(id)
            },
        }
    }

    /// Drops the entry of `host`, so that the next `get` builds a new client.
    /// Clients already handed out stay usable.
    pub fn invalidate(&mut self, host: &String)
        requires
            old(self).wf(),
        ensures
            final(self).wf(),
            final(self).clients() == old(self).clients().remove(host@),
            final(self).next_id() == old(self).next_id(),
    {
        match self.position(host) {
            None => {
                assert(self.model@.remove(host@) =~= self.model@);
            },
            Some(i) => {
                let ghost old_entries = self.entries@;
                let ghost old_model = self.model@;
                let ghost new_model = old_model.remove(host@);
                let _ = self.entries.remove(i);
                self.model = Ghost(new_model);
                assert forall|k: int| 0 <= k < self.entries@.len() implies #[trigger]
                    self.model@.contains_key(self.entries@[k].0@)
                        && self.model@[self.entries@[k].0@] == self.entries@[k].1.id as nat by {
                    let o = if k < i { k } else { k + 1 };
                    assert(self.entries@[k] == old_entries[o]);
                    assert(old_model.contains_key(old_entries[o].0@));
                    assert(old_entries[o].0@ != old_entries[i as int].0@);
                }
                assert forall|h: Seq<char>| #[trigger] self.model@.contains_key(h) implies exists|
                    k: int,
                |
                    0 <= k < self.entries@.len() && #[trigger] self.entries@[k].0@ == h by {
                    let o = choose|o: int|
                        0 <= o < old_entries.len() && #[trigger] old_entries[o].0@ == h;
                    assert(o != i);
                    let k = if o < i { o } else { o - 1 };
                    assert(self.entries@[k] == old_entries[o]);
                }
                assert forall|a: int, b: int|
                    0 <= a < self.entries@.len() && 0 <= b < self.entries@.len() && a != b
                        implies #[trigger] self.entries@[a].0@ != #[trigger] self.entries@[b].0@ by {
                    let oa = if a < i { a } else { a + 1 };
                    let ob = if b < i { b } else { b + 1 };
                    assert(self.entries@[a] == old_entries[oa]);
                    assert(self.entries@[b] == old_entries[ob]);
                }
            },
        }
    }
}

} // verus!
