//! The session store: an in-memory mapping from opaque bearer tokens to
//! authenticated users with expiry.
//!
//! Tokens are generated from 32 bytes of OS-seeded randomness, text-encoded
//! with base64.  Expired entries are purged lazily, the first time they are
//! looked up; sessions that are never queried again after expiry stay in
//! memory, a resource leak bounded by login volume and accepted by design.
//! Callers must hold the store behind one exclusive lock and must not perform
//! network I/O while holding it; `issue` is called only after external
//! verification has already succeeded.

use vstd::prelude::*;
use rand::RngCore;
use rand::SeedableRng;
use base64::Engine;

verus! {

/// Mathematical value of an authenticated principal.
#[verifier::ext_equal]
pub ghost struct UserView {
    pub name: Seq<char>,
    pub id: u128,
    pub roles: Seq<Seq<char>>,
    pub expires_at: u64,
}

/// An authenticated principal: provider-supplied display name, stable unique
/// identifier, role strings, and the absolute expiry of the session in
/// seconds since the UNIX epoch.  Created only by a successful login and
/// never mutated afterwards; a later login replaces it with a fresh value.
pub struct User {
    pub name: String,
    pub id: u128,
    pub roles: Vec<String>,
    pub expires_at: u64,
}

impl View for User {
    type V = UserView;

    open spec fn view(&self) -> UserView {
        UserView {
            name: self.name@,
            id: self.id,
            roles: self.roles.deep_view(),
            expires_at: self.expires_at,
        }
    }
}

impl DeepView for User {
    type V = UserView;

    open spec fn deep_view(&self) -> UserView {
        self@
    }
}

impl Clone for User {
    fn clone(&self) -> (r: Self)
        ensures
            r@ == self@,
    {
        let r = User {
            name: self.name.clone(),
            id: self.id,
            roles: clone_strings(&self.roles),
            expires_at: self.expires_at,
        };
        proof {
            assert(r@ =~= self@);
        }
        r
    }
}

/// An opaque, unguessable bearer token, bound one-to-one to a `User` while
/// its session lives.  Generated server-side; never derived from
/// user-supplied data.
#[derive(Debug)]
pub struct Token {
    raw: String,
}

impl View for Token {
    type V = Seq<char>;

    closed spec fn view(&self) -> Seq<char> {
        self.raw@
    }
}

impl Token {
    /// Wrap the raw header value a client presented, for lookup in the store.
    pub fn new(raw: String) -> (t: Token)
        ensures
            t@ == raw@,
    {
        Token { raw }
    }

    /// The raw text of the token, as it travels in a response or a header.
    pub fn as_str(&self) -> (s: &str)
        ensures
            s@ == self@,
    {
        self.raw.as_str()
    }
}

impl Clone for Token {
    fn clone(&self) -> (r: Self)
        ensures
            r@ == self@,
    {
        Token { raw: self.raw.clone() }
    }
}

/// Copy a vector of strings, keeping each string's characters.
pub(crate) fn clone_strings(v: &Vec<String>) -> (r: Vec<String>)
    ensures
        r.deep_view() == v.deep_view(),
{
    let mut out: Vec<String> = Vec::new();
    let mut i: usize = 0;
    while i < v.len()
        invariant
            i <= v@.len(),
            out@.len() == i,
            forall|j: int| 0 <= j < i ==> out@[j]@ == v@[j]@,
        decreases v@.len() - i,
    {
        out.push(v[i].clone());
        i += 1;
    }
    proof {
        assert(out.deep_view() =~= v.deep_view());
    }
    out
}

/// What the standard base64 alphabet, with padding, makes of a byte string.
pub uninterp spec fn base64_std_of(bytes: Seq<u8>) -> Seq<char>;

/// Relies on base64's `STANDARD` engine: the encoding is a function of the
/// bytes alone, and every three input bytes become four output characters.
#[verifier::external_body]
fn base64_encode(bytes: &Vec<u8>) -> (r: String)
    ensures
        r@ == base64_std_of(bytes@),
        r@.len() == ((bytes@.len() + 2) / 3) * 4,
{
    base64::engine::general_purpose::STANDARD.encode(bytes)
}

#[verifier::external_type_specification]
#[verifier::external_body]
pub struct ExStdRng(rand::rngs::StdRng);

/// Relies on rand's `StdRng::from_os_rng` to seed a generator from the
/// operating system; nothing is promised of the state it returns.
#[verifier::external_body]
fn rng_from_os() -> rand::rngs::StdRng {
    rand::rngs::StdRng::from_os_rng()
}

/// Relies on rand's `RngCore::fill_bytes` to fill a buffer of the requested
/// length; the values are random, so nothing is promised of them.
#[verifier::external_body]
fn random_bytes(rng: &mut rand::rngs::StdRng, n: usize) -> (r: Vec<u8>)
    ensures
        r@.len() == n,
{
    let mut buf = vec![0u8; n];
    rng.fill_bytes(&mut buf);
    buf
}

/// Relies on std's `SystemTime` for the wall clock, in whole seconds since
/// the UNIX epoch; the value depends on the clock, so nothing is promised of
/// it.  A clock before the epoch reads as zero.
#[verifier::external_body]
fn now_secs() -> u64 {
    std::time::SystemTime::now()
        .duration_since(std::time::UNIX_EPOCH)
        .map(|d| d.as_secs())
        .unwrap_or(0)
}

/// The number of random bytes behind every issued token.
pub const TOKEN_ENTROPY_BYTES: usize = 32;

/// The map a sequence of store entries denotes; later entries win, as with
/// repeated map insertion.
pub open spec fn session_map_of(entries: Seq<(Token, User)>) -> Map<Seq<char>, UserView>
    decreases entries.len(),
{
    if entries.len() == 0 {
        Map::empty()
    } else {
        session_map_of(entries.drop_last()).insert(entries.last().0@, entries.last().1@)
    }
}

/// No two entries share a token.
pub open spec fn tokens_unique(entries: Seq<(Token, User)>) -> bool {
    forall|i: int, j: int| 0 <= i < j < entries.len() ==> entries[i].0@ != entries[j].0@
}

/// What one `validate` observes: the returned user, if any, and the store
/// contents afterwards.  A live entry is returned and kept; an expired or
/// absent one yields nothing, and an expired one is purged.
pub open spec fn validate_outcome(
    m: Map<Seq<char>, UserView>,
    token: Seq<char>,
    now: u64,
) -> (Option<UserView>, Map<Seq<char>, UserView>) {
    if m.contains_key(token) && now < m[token].expires_at {
        (Some(m[token]), m)
    } else {
        (None, m.remove(token))
    }
}

proof fn lemma_map_of_contains(entries: Seq<(Token, User)>, token: Seq<char>)
    ensures
        session_map_of(entries).contains_key(token) <==> exists|i: int|
            0 <= i < entries.len() && entries[i].0@ == token,
    decreases entries.len(),
{
    if entries.len() > 0 {
        lemma_map_of_contains(entries.drop_last(), token);
        if entries.last().0@ == token {
            assert(entries[entries.len() - 1].0@ == token);
        } else if session_map_of(entries).contains_key(token) {
            let i = choose|i: int| 0 <= i < entries.drop_last().len() && entries.drop_last()[i].0@ == token;
            assert(entries[i].0@ == token);
        } else if exists|i: int| 0 <= i < entries.len() && entries[i].0@ == token {
            let i = choose|i: int| 0 <= i < entries.len() && entries[i].0@ == token;
            assert(entries.drop_last()[i].0@ == token);
        }
    }
}

proof fn lemma_map_of_index(entries: Seq<(Token, User)>, i: int)
    requires
        tokens_unique(entries),
        0 <= i < entries.len(),
    ensures
        session_map_of(entries).contains_key(entries[i].0@),
        session_map_of(entries)[entries[i].0@] == entries[i].1@,
    decreases entries.len(),
{
    lemma_map_of_contains(entries, entries[i].0@);
    if i < entries.len() - 1 {
        assert(entries[i].0@ != entries.last().0@);
        lemma_map_of_index(entries.drop_last(), i);
        assert(entries.drop_last()[i] == entries[i]);
    }
}

proof fn lemma_tokens_unique_remove(entries: Seq<(Token, User)>, i: int)
    requires
        tokens_unique(entries),
        0 <= i < entries.len(),
    ensures
        tokens_unique(entries.remove(i)),
{
    assert forall|p: int, q: int| 0 <= p < q < entries.remove(i).len() implies entries.remove(
        i,
    )[p].0@ != entries.remove(i)[q].0@ by {
        let p0 = if p < i { p } else { p + 1 };
        let q0 = if q < i { q } else { q + 1 };
        assert(entries.remove(i)[p] == entries[p0]);
        assert(entries.remove(i)[q] == entries[q0]);
    }
}

proof fn lemma_map_of_remove(entries: Seq<(Token, User)>, i: int)
    requires
        tokens_unique(entries),
        0 <= i < entries.len(),
    ensures
        session_map_of(entries.remove(i)) == session_map_of(entries).remove(entries[i].0@),
    decreases entries.len(),
{
    let t = entries[i].0@;
    if i == entries.len() - 1 {
        assert(entries.remove(i) =~= entries.drop_last());
        lemma_map_of_contains(entries.drop_last(), t);
        assert forall|j: int| 0 <= j < entries.drop_last().len() implies entries.drop_last()[j].0@
            != t by {
            assert(entries.drop_last()[j] == entries[j]);
        }
        assert(!session_map_of(entries.drop_last()).contains_key(t));
        assert(session_map_of(entries).remove(t) =~= session_map_of(entries.drop_last()));
    } else {
        assert(entries.remove(i).drop_last() =~= entries.drop_last().remove(i));
        assert(entries.remove(i).last() == entries.last());
        lemma_map_of_remove(entries.drop_last(), i);
        assert(entries.drop_last()[i] == entries[i]);
        assert(entries[i].0@ != entries.last().0@);
        assert(session_map_of(entries.remove(i)) =~= session_map_of(entries).remove(t));
    }
}

proof fn lemma_map_of_update(entries: Seq<(Token, User)>, i: int, t: Token, u: User)
    requires
        tokens_unique(entries),
        0 <= i < entries.len(),
        t@ == entries[i].0@,
    ensures
        session_map_of(entries.update(i, (t, u))) == session_map_of(entries).insert(t@, u@),
        tokens_unique(entries.update(i, (t, u))),
    decreases entries.len(),
{
    let s2 = entries.update(i, (t, u));
    assert forall|p: int, q: int| 0 <= p < q < s2.len() implies s2[p].0@ != s2[q].0@ by {
        assert(p == i || s2[p] == entries[p]);
        assert(q == i || s2[q] == entries[q]);
    }
    if i == entries.len() - 1 {
        assert(s2.drop_last() =~= entries.drop_last());
        assert(s2.last() == (t, u));
        assert(session_map_of(s2) =~= session_map_of(entries).insert(t@, u@));
    } else {
        assert(s2.drop_last() =~= entries.drop_last().update(i, (t, u)));
        assert(s2.last() == entries.last());
        assert(entries.drop_last()[i] == entries[i]);
        lemma_map_of_update(entries.drop_last(), i, t, u);
        assert(entries[i].0@ != entries.last().0@);
        assert(session_map_of(s2) =~= session_map_of(entries).insert(t@, u@));
    }
}

proof fn lemma_map_of_card(entries: Seq<(Token, User)>)
    requires
        tokens_unique(entries),
    ensures
        session_map_of(entries).dom().finite(),
        session_map_of(entries).dom().len() == entries.len(),
    decreases entries.len(),
{
    if entries.len() > 0 {
        let prefix = entries.drop_last();
        assert forall|i: int, j: int| 0 <= i < j < prefix.len() implies prefix[i].0@
            != prefix[j].0@ by {
            assert(prefix[i] == entries[i] && prefix[j] == entries[j]);
        }
        lemma_map_of_card(prefix);
        lemma_map_of_contains(prefix, entries.last().0@);
        assert forall|j: int| 0 <= j < prefix.len() implies prefix[j].0@ != entries.last().0@ by {
            assert(prefix[j] == entries[j]);
        }
        assert(!session_map_of(prefix).contains_key(entries.last().0@));
        assert(session_map_of(entries).dom() =~= session_map_of(prefix).dom().insert(
            entries.last().0@,
        ));
    }
}

/// The in-memory session store, the only shared mutable state of the core.
/// Every entry's `expires_at` is the sole expiry signal: an entry past it is
/// treated as absent and purged on the next access.
pub struct SessionStore {
    rng: rand::rngs::StdRng,
    entries: Vec<(Token, User)>,
}

impl SessionStore {
    /// Entries, each token bound to at most one user.
    pub closed spec fn wf(self) -> bool {
        tokens_unique(self.entries@)
    }

    /// The mapping from token text to user that this store holds.
    pub closed spec fn sessions(self) -> Map<Seq<char>, UserView> {
        session_map_of(self.entries@)
    }

    /// How many sessions the store holds.
    pub closed spec fn count(self) -> nat {
        self.entries@.len()
    }

    /// The session map is finite, with one entry per held session: what the
    /// mapping states and what the store counts agree.
    pub proof fn lemma_sessions_finite(self)
        requires
            self.wf(),
        ensures
            self.sessions().dom().finite(),
            self.sessions().dom().len() == self.count(),
    {
        lemma_map_of_card(self.entries@);
    }

    /// An empty store with an OS-seeded token generator.
    pub fn new() -> (s: SessionStore)
        ensures
            s.wf(),
            s.sessions() == Map::<Seq<char>, UserView>::empty(),
            s.count() == 0,
    {
        SessionStore { rng: rng_from_os(), entries: Vec::new() }
    }

    /// How many sessions the store holds right now.
    pub fn len(&self) -> (n: usize)
        ensures
            n == self.count(),
    {
        self.entries.len()
    }

    /// Generate a fresh token from 32 random bytes, bind it to `user`, and
    /// return it.  A colliding token, negligibly probable, replaces the
    /// older session, as repeated map insertion would.
    pub fn issue(&mut self, user: User) -> (t: Token)
        requires
            old(self).wf(),
        ensures
            final(self).wf(),
            final(self).sessions() == old(self).sessions().insert(t@, user@),
            final(self).count() == if old(self).sessions().contains_key(t@) {
                old(self).count()
            } else {
                old(self).count() + 1
            },
            t@.len() == 44,
            exists|b: Seq<u8>| b.len() == TOKEN_ENTROPY_BYTES && t@ == base64_std_of(b),
    {
        let bytes = random_bytes(&mut self.rng, TOKEN_ENTROPY_BYTES);
        let raw = base64_encode(&bytes);
        let token = Token { raw };
        let ghost s0 = self.entries@;
        proof {
            lemma_map_of_contains(s0, token@);
        }
        let idx = find_token_index(&self.entries, &token.raw);
        match idx {
            Some(i) => {
                let t2 = token.clone();
                proof {
                    lemma_map_of_update(s0, i as int, t2, user);
                }
                self.entries.set(i, (t2, user));
            },
            None => {
                let t2 = token.clone();
                self.entries.push((t2, user));
                proof {
                    let s1 = self.entries@;
                    assert(s1.drop_last() =~= s0);
                    assert(s1.last() == (t2, user));
                    assert forall|p: int, q: int| 0 <= p < q < s1.len() implies s1[p].0@
                        != s1[q].0@ by {
                        if q < s1.len() - 1 {
                            assert(s1[p] == s0[p] && s1[q] == s0[q]);
                        } else {
                            assert(s1[p] == s0[p]);
                        }
                    }
                }
            },
        }
        token
    }

    /// Look `token` up at time `now`.  A live session's user is returned and
    /// the store is unchanged; an expired session is deleted; an unknown
    /// token returns nothing.  The caller cannot tell "expired" from "never
    /// existed": both are an authentication failure.
    pub fn get_user(&mut self, token: &Token, now: u64) -> (r: Option<User>)
        requires
            old(self).wf(),
        ensures
            final(self).wf(),
            r.deep_view() == validate_outcome(old(self).sessions(), token@, now).0,
            final(self).sessions() == validate_outcome(old(self).sessions(), token@, now).1,
            final(self).count() == if old(self).sessions().contains_key(token@) && now
                >= old(self).sessions()[token@].expires_at {
                (old(self).count() - 1) as nat
            } else {
                old(self).count()
            },
    {
        let ghost s0 = self.entries@;
        proof {
            lemma_map_of_contains(s0, token@);
        }
        let idx = find_token_index(&self.entries, &token.raw);
        match idx {
            Some(i) => {
                proof {
                    lemma_map_of_index(s0, i as int);
                }
                if now < self.entries[i].1.expires_at {
                    Some(self.entries[i].1.clone())
                } else {
                    proof {
                        lemma_map_of_remove(s0, i as int);
                        lemma_tokens_unique_remove(s0, i as int);
                    }
                    self.entries.remove(i);
                    None
                }
            },
            None => {
                proof {
                    assert(session_map_of(s0).remove(token@) =~= session_map_of(s0));
                }
                None
            },
        }
    }

    /// Look `token` up at the current wall-clock time.  The clock is read
    /// once; the result is what `get_user` returns for that reading.
    pub fn get_user_now(&mut self, token: &Token) -> (r: Option<User>)
        requires
            old(self).wf(),
        ensures
            final(self).wf(),
            exists|now: u64|
                r.deep_view() == validate_outcome(old(self).sessions(), token@, now).0
                    && final(self).sessions() == validate_outcome(old(self).sessions(), token@, now).1,
    {
        let now = now_secs();
        let r = self.get_user(token, now);
        proof {
            let r0 = validate_outcome(old(self).sessions(), token@, now).0;
            let m0 = validate_outcome(old(self).sessions(), token@, now).1;
            assert(r.deep_view() == r0 && final(self).sessions() == m0);
        }
        r
    }
}

fn find_token_index(entries: &Vec<(Token, User)>, raw: &String) -> (r: Option<usize>)
    ensures
        match r {
            Some(i) => 0 <= i < entries@.len() && entries@[i as int].0@ == raw@,
            None => forall|j: int| 0 <= j < entries@.len() ==> entries@[j].0@ != raw@,
        },
{
    let mut i: usize = 0;
    while i < entries.len()
        invariant
            i <= entries@.len(),
            forall|j: int| 0 <= j < i ==> entries@[j].0@ != raw@,
        decreases entries@.len() - i,
    {
        if entries[i].0.raw == *raw {
            return Some(i);
        }
        i += 1;
    }
    None
}

} // verus!
