//! Opaque session tokens and the store that maps them to user ids.
//!
//! A session token is a 128-bit value drawn from the injected secure
//! generator. It travels to the client as decimal text in a cookie and is
//! persisted as 16 little-endian bytes keyed to a user id. Uniqueness is
//! probabilistic: the store rejects a colliding insert, and creation retries
//! a bounded number of times before surfacing a store error.
use vstd::prelude::*;
use std::collections::HashMap;

verus! {

broadcast use vstd::std_specs::hash::group_hash_axioms;

/// The low `count` little-endian bytes of `n`.
pub open spec fn le_bytes_rec(n: nat, count: nat) -> Seq<u8>
    decreases count,
{
    if count == 0 {
        Seq::empty()
    } else {
        seq![(n % 256) as u8] + le_bytes_rec(n / 256, (count - 1) as nat)
    }
}

/// An opaque credential: a random 128-bit value, meaningful only to the
/// server that stored it.
#[derive(Clone, Copy, PartialEq, Eq, Structural, Debug)]
pub struct SessionToken(u128);

impl SessionToken {
    /// The 128-bit value behind the token.
    pub closed spec fn value(&self) -> u128 {
        self.0
    }

    /// Draw a fresh token from the generator. The value is random; distinct
    /// calls are expected, but never promised, to differ.
    pub fn generate_new(random: &mut crate::rng::Rng) -> Self {
        SessionToken(random.next_u128())
    }

    /// The text form set in the client's cookie: the canonical decimal
    /// rendering of the value.
    pub fn into_cookie_value(self) -> (r: String)
        ensures
            r@ == crate::decimal::dec_of(self.value() as nat),
    {
        crate::decimal::u128_to_dec_string(self.0)
    }

    /// Read a token back from cookie text; inverts `into_cookie_value`, and
    /// gives nothing on anything but a decimal value in range.
    pub fn from_cookie_value(s: &str) -> (r: Option<Self>)
        ensures
            r matches Some(t) ==> s@.len() >= 1 && crate::decimal::is_digits(s@)
                && t.value() as nat == crate::decimal::dec_value(s@),
            s@.len() >= 1 && crate::decimal::is_digits(s@) && crate::decimal::dec_value(s@)
                <= crate::decimal::U128_MAX ==> r is Some,
    {
        match crate::decimal::parse_dec_u128(s) {
            Some(v) => Some(SessionToken(v)),
            None => None,
        }
    }

    /// The form persisted by the backing store: the value's 16 little-endian
    /// bytes.
    pub fn into_database_value(self) -> (r: Vec<u8>)
        ensures
            r@ == le_bytes_rec(self.value() as nat, 16),
            r@.len() == 16,
    {
        let mut out: Vec<u8> = Vec::new();
        let mut m: u128 = self.0;
        let mut i: usize = 0;
        while i < 16
            invariant
                i <= 16,
                out@.len() == i,
                out@ + le_bytes_rec(m as nat, (16 - i) as nat) =~= le_bytes_rec(
                    self.0 as nat,
                    16,
                ),
            decreases 16 - i,
        {
            let ghost old_m = m as nat;
            let ghost old_out = out@;
            out.push((m % 256) as u8);
            m = m / 256;
            i = i + 1;
            proof {
                assert(le_bytes_rec(old_m, (16 - (i - 1)) as nat) =~= seq![(old_m % 256) as u8]
                    + le_bytes_rec(old_m / 256, (16 - i) as nat));
                assert(out@ + le_bytes_rec(m as nat, (16 - i) as nat) =~= old_out
                    + le_bytes_rec(old_m, (16 - (i - 1)) as nat));
            }
        }
        assert(out@ =~= le_bytes_rec(self.0 as nat, 16));
        out
    }
}

/// The server-side record of live sessions: token value to user id. The
/// store is the system of record; the view is the association as a map.
pub struct SessionStore {
    sessions: HashMap<u128, u128>,
}

impl View for SessionStore {
    type V = Map<u128, u128>;

    closed spec fn view(&self) -> Map<u128, u128> {
        self.sessions@
    }
}

/// How many times a colliding token is redrawn before creation gives up.
pub const CREATE_RETRY_LIMIT: usize = 3;

impl SessionStore {
    /// An empty store: no token resolves.
    pub fn new() -> (r: SessionStore)
        ensures
            r@ == Map::<u128, u128>::empty(),
    {
        SessionStore { sessions: HashMap::new() }
    }

    /// How many sessions are live.
    pub fn session_count(&self) -> (r: usize)
        ensures
            r == self@.dom().len(),
    {
        self.sessions.len()
    }

    /// Generate a token and persist the association token -> `user_id`.
    ///
    /// A collision with a stored token is detected at insert time and
    /// retried with a fresh draw, a bounded number of times; if every draw
    /// collides, the store is left unchanged and a store error surfaces. On
    /// success the returned token was absent before and now maps to
    /// `user_id`, and no other association changed.
    pub fn create(&mut self, random: &mut crate::rng::Rng, user_id: u128) -> (r: Result<
        SessionToken,
        crate::errors::AuthError,
    >)
        ensures
            r matches Ok(t) ==> !old(self)@.contains_key(t.value()) && final(self)@ == old(
                self,
            )@.insert(t.value(), user_id),
            r is Err ==> r == Err::<SessionToken, _>(crate::errors::AuthError::StoreError)
                && final(self)@ == old(self)@,
    {
        let mut attempts: usize = 0;
        while attempts < CREATE_RETRY_LIMIT
            invariant
                self@ == old(self)@,
            decreases CREATE_RETRY_LIMIT - attempts,
        {
            let token = SessionToken::generate_new(random);
            if !self.sessions.contains_key(&token.0) {
                self.sessions.insert(token.0, user_id);
                return Ok(token);
            }
            attempts = attempts + 1;
        }
        Err(crate::errors::AuthError::StoreError)
    }

    /// Point lookup: the user id a token was stored under, or nothing for a
    /// token that is absent (expired, invalidated, or never issued).
    pub fn resolve(&self, token: SessionToken) -> (r: Option<u128>)
        ensures
            r matches Some(uid) ==> self@.contains_key(token.value()) && uid == self@[
                token.value()
            ],
            r is None ==> !self@.contains_key(token.value()),
    {
        match self.sessions.get(&token.0) {
            Some(uid) => Some(*uid),
            None => None,
        }
    }

    /// Remove the association (logout). Idempotent: invalidating an absent
    /// token changes nothing and is not an error.
    pub fn invalidate(&mut self, token: SessionToken)
        ensures
            final(self)@ == old(self)@.remove(token.value()),
    {
        self.sessions.remove(&token.0);
    }
}

/// Creating a session and resolving its token round-trips to the user id the
/// session was created for.
pub proof fn lemma_create_then_resolve(m: Map<u128, u128>, t: u128, uid: u128)
    ensures
        m.insert(t, uid).contains_key(t),
        m.insert(t, uid)[t] == uid,
{
}

/// After invalidation a token no longer resolves, and invalidating it again
/// changes nothing.
pub proof fn lemma_invalidate_then_resolve(m: Map<u128, u128>, t: u128)
    ensures
        !m.remove(t).contains_key(t),
        m.remove(t).remove(t) == m.remove(t),
{
    assert(m.remove(t).remove(t) =~= m.remove(t));
}

} // verus!
