//! The registry of sessions the desktop shell has accepted: each registered
//! session token maps to the trusted `(tenant_id, user_id)` taken from its
//! verified claims. The shell keeps one registry behind a lock.
use vstd::prelude::*;
use crate::text::same_text;

verus! {

/// A registered session as stored: token, tenant id, user id.
pub type SessionEntry = (String, String, String);

/// Whether some stored entry has token `token`.
pub open spec fn holds_token(entries: Seq<SessionEntry>, token: Seq<char>) -> bool {
    exists|i: int| 0 <= i < entries.len() && (#[trigger] entries[i]).0@ == token
}

/// No token is stored twice.
pub open spec fn tokens_distinct(entries: Seq<SessionEntry>) -> bool {
    forall|i: int, j: int|
        0 <= i < entries.len() && 0 <= j < entries.len() && #[trigger] entries[i].0@ == #[trigger] entries[j].0@
            ==> i == j
}

/// The registry as a map from token to `(tenant_id, user_id)`.
pub open spec fn session_map(entries: Seq<SessionEntry>) -> Map<Seq<char>, (Seq<char>, Seq<char>)> {
    Map::new(
        |t: Seq<char>| holds_token(entries, t),
        |t: Seq<char>|
            {
                let i = choose|i: int| 0 <= i < entries.len() && (#[trigger] entries[i]).0@ == t;
                (entries[i].1@, entries[i].2@)
            },
    )
}

/// Registered sessions, keyed by session token.
pub struct SessionState {
    entries: Vec<SessionEntry>,
}

impl SessionState {
    #[verifier::type_invariant]
    spec fn distinct_tokens(self) -> bool {
        tokens_distinct(self.entries@)
    }

    /// The sessions held, as a map from token to `(tenant_id, user_id)`.
    pub closed spec fn sessions(self) -> Map<Seq<char>, (Seq<char>, Seq<char>)> {
        session_map(self.entries@)
    }

    /// An empty registry.
    pub fn new() -> (s: SessionState)
        ensures
            s.sessions() == Map::<Seq<char>, (Seq<char>, Seq<char>)>::empty(),
    {
        let s = SessionState { entries: Vec::new() };
        assert(s.sessions() =~= Map::<Seq<char>, (Seq<char>, Seq<char>)>::empty());
        s
    }

    /// Position of the entry with token `token`, if any.
    fn position(&self, token: &str) -> (pos: Option<usize>)
        ensures
            match pos {
                Some(i) => i < self.entries@.len() && self.entries@[i as int].0@ == token@,
                None => !holds_token(self.entries@, token@),
            },
    {
        let mut i: usize = 0;
        while i < self.entries.len()
            invariant
                i <= self.entries@.len(),
                forall|j: int| 0 <= j < i ==> (#[trigger] self.entries@[j]).0@ != token@,
            decreases self.entries@.len() - i,
        {
            if same_text(self.entries[i].0.as_str(), token) {
                return Some(i);
            }
            i = i + 1;
        }
        None
    }

    /// Registers `token` for `(tenant_id, user_id)`, replacing what an
    /// earlier registration of the same token stored.
    pub fn register(&mut self, token: String, tenant_id: String, user_id: String)
        ensures
            final(self).sessions() == old(self).sessions().insert(token@, (tenant_id@, user_id@)),
    {
        proof { use_type_invariant(&*self); }
        let ghost old_entries = self.entries@;
        let ghost key = token@;
        let ghost val = (tenant_id@, user_id@);
        match self.position(token.as_str()) {
            Some(i) => {
                let mut entries: Vec<SessionEntry> = Vec::new();
                std::mem::swap(&mut entries, &mut self.entries);
                assert(entries@ == old_entries);
                entries.set(i, (token, tenant_id, user_id));
                let ghost new_entries = entries@;
                assert(tokens_distinct(new_entries)) by {
                    assert forall|a: int, b: int|
                        0 <= a < new_entries.len() && 0 <= b < new_entries.len()
                            && #[trigger] new_entries[a].0@ == #[trigger] new_entries[b].0@ implies a == b by {
                        if a != i && b != i {
                            assert(old_entries[a] == new_entries[a]);
                            assert(old_entries[b] == new_entries[b]);
                        } else if a == i && b != i {
                            assert(old_entries[b] == new_entries[b]);
                            assert(old_entries[b].0@ == old_entries[i as int].0@);
                        } else if b == i && a != i {
                            assert(old_entries[a] == new_entries[a]);
                            assert(old_entries[a].0@ == old_entries[i as int].0@);
                        }
                    }
                }
                assert(session_map(new_entries) =~= session_map(old_entries).insert(key, val)) by {
                    assert forall|t: Seq<char>| holds_token(new_entries, t) == (holds_token(old_entries, t) || t == key) by {
                        if holds_token(old_entries, t) {
                            let j = choose|j: int| 0 <= j < old_entries.len() && (#[trigger] old_entries[j]).0@ == t;
                            if j == i {
                                assert(new_entries[j].0@ == t);
                            } else {
                                assert(new_entries[j] == old_entries[j]);
                            }
                        }
                        if t == key {
                            assert(new_entries[i as int].0@ == t);
                        }
                        if holds_token(new_entries, t) {
                            let j = choose|j: int| 0 <= j < new_entries.len() && (#[trigger] new_entries[j]).0@ == t;
                            if j != i {
                                assert(new_entries[j] == old_entries[j]);
                            }
                        }
                    }
                    assert forall|t: Seq<char>| #[trigger] holds_token(new_entries, t) implies session_map(new_entries)[t]
                        == session_map(old_entries).insert(key, val)[t] by {
                        let j = choose|j: int| 0 <= j < new_entries.len() && (#[trigger] new_entries[j]).0@ == t;
                        if t == key {
                            assert(new_entries[i as int].0@ == t);
                            assert(j == i);
                        } else {
                            assert(j != i);
                            assert(new_entries[j] == old_entries[j]);
                            let k = choose|k: int| 0 <= k < old_entries.len() && (#[trigger] old_entries[k]).0@ == t;
                            assert(old_entries[j].0@ == t);
                            assert(k == j);
                        }
                    }
                }
                self.entries = entries;
            },
            None => {
                let mut entries: Vec<SessionEntry> = Vec::new();
                std::mem::swap(&mut entries, &mut self.entries);
                assert(entries@ == old_entries);
                entries.push((token, tenant_id, user_id));
                let ghost new_entries = entries@;
                let ghost n = old_entries.len() as int;
                assert(new_entries[n].0@ == key);
                assert forall|a: int| 0 <= a < n implies #[trigger] new_entries[a] == old_entries[a] by {}
                assert(tokens_distinct(new_entries)) by {
                    assert forall|a: int, b: int|
                        0 <= a < new_entries.len() && 0 <= b < new_entries.len()
                            && #[trigger] new_entries[a].0@ == #[trigger] new_entries[b].0@ implies a == b by {
                        if a < n && b < n {
                            assert(old_entries[a] == new_entries[a]);
                            assert(old_entries[b] == new_entries[b]);
                        } else if a < n {
                            assert(old_entries[a].0@ == key);
                        } else if b < n {
                            assert(old_entries[b].0@ == key);
                        }
                    }
                }
                assert(session_map(new_entries) =~= session_map(old_entries).insert(key, val)) by {
                    assert forall|t: Seq<char>| holds_token(new_entries, t) == (holds_token(old_entries, t) || t == key) by {
                        if holds_token(old_entries, t) {
                            let j = choose|j: int| 0 <= j < old_entries.len() && (#[trigger] old_entries[j]).0@ == t;
                            assert(new_entries[j] == old_entries[j]);
                        }
                        if holds_token(new_entries, t) {
                            let j = choose|j: int| 0 <= j < new_entries.len() && (#[trigger] new_entries[j]).0@ == t;
                            if j < n {
                                assert(new_entries[j] == old_entries[j]);
                            }
                        }
                    }
                    assert forall|t: Seq<char>| #[trigger] holds_token(new_entries, t) implies session_map(new_entries)[t]
                        == session_map(old_entries).insert(key, val)[t] by {
                        let j = choose|j: int| 0 <= j < new_entries.len() && (#[trigger] new_entries[j]).0@ == t;
                        if t == key {
                            assert(j == n);
                        } else {
                            assert(j < n);
                            assert(new_entries[j] == old_entries[j]);
                            let k = choose|k: int| 0 <= k < old_entries.len() && (#[trigger] old_entries[k]).0@ == t;
                            assert(new_entries[k] == old_entries[k]);
                            assert(k == j);
                        }
                    }
                }
                self.entries = entries;
            },
        }
    }

    /// The `(tenant_id, user_id)` registered for `token`, if any.
    pub fn lookup(&self, token: &str) -> (found: Option<(String, String)>)
        ensures
            match found {
                Some(p) => self.sessions().contains_key(token@) && self.sessions()[token@] == (p.0@, p.1@),
                None => !self.sessions().contains_key(token@),
            },
    {
        proof { use_type_invariant(self); }
        match self.position(token) {
            Some(i) => {
                let ghost es = self.entries@;
                let e = &self.entries[i];
                proof {
                    let k = choose|k: int| 0 <= k < es.len() && (#[trigger] es[k]).0@ == token@;
                    assert(es[i as int].0@ == token@);
                    assert(k == i);
                }
                Some((e.1.clone(), e.2.clone()))
            },
            None => None,
        }
    }

    /// Whether `token` is registered.
    pub fn is_registered(&self, token: &str) -> (b: bool)
        ensures
            b == self.sessions().contains_key(token@),
    {
        self.position(token).is_some()
    }
}

/// A lookup right after registering a token gives back what was registered,
/// and registering one token leaves every other token's session as it was.
pub proof fn lemma_register_then_lookup(
    before: Map<Seq<char>, (Seq<char>, Seq<char>)>,
    token: Seq<char>,
    session: (Seq<char>, Seq<char>),
    other: Seq<char>,
)
    requires
        other != token,
    ensures
        before.insert(token, session).contains_key(token),
        before.insert(token, session)[token] == session,
        before.insert(token, session).contains_key(other) == before.contains_key(other),
        before.contains_key(other) ==> before.insert(token, session)[other] == before[other],
{
}

} // verus!
