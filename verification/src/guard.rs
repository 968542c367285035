//! The request guard: per request, extract a credential (cookie or bearer
//! header), resolve it to an authenticated identity, and either attach that
//! identity or reject.
//!
//! A presented token is dispatched by shape: decimal text in range is an
//! opaque session token resolved against the store; anything else is treated
//! as a signed token and checked cryptographically. The guard never mutates a
//! token and never extends a session's lifetime.
use vstd::prelude::*;
use vstd::string::StrSliceExecFns;
use vstd::string::StringExecFns;

verus! {

use crate::decimal::dec_value;
use crate::decimal::is_digits;
use crate::errors::AuthError;
use crate::service::AuthService;
use crate::session::SessionStore;
use crate::session::SessionToken;
use crate::token::signed_token_of;
use crate::users::User;
use crate::users::UserRepository;
use crate::users::UserView;

/// Whether text has the shape of an opaque session token: non-empty decimal
/// whose value fits in 128 bits.
pub open spec fn is_u128_decimal(t: Seq<char>) -> bool {
    t.len() >= 1 && is_digits(t) && dec_value(t) <= crate::decimal::U128_MAX
}

/// Whether some stored record carries this id.
pub open spec fn user_with_id(users: Seq<UserView>, uid: u128) -> bool {
    exists|i: int| 0 <= i < users.len() && (#[trigger] users[i]).id == uid
}

/// The token text a bearer header carries, when the header is
/// `Bearer <token>`.
pub open spec fn bearer_of(h: Seq<char>) -> Option<Seq<char>> {
    if h.len() >= 7 && h[0] == 'B' && h[1] == 'e' && h[2] == 'a' && h[3] == 'r' && h[4] == 'e'
        && h[5] == 'r' && h[6] == ' ' {
        Some(h.subrange(7, h.len() as int))
    } else {
        None
    }
}

/// Pick the presented credential out of a request: the token cookie when one
/// is set, otherwise the bearer part of the authorization header, otherwise
/// nothing.
pub fn extract_credential(cookie: Option<&str>, authorization: Option<&str>) -> (r: Option<String>)
    ensures
        cookie matches Some(c) ==> (r matches Some(t) && t@ == c@),
        cookie is None ==> (authorization matches Some(h) ==> (bearer_of(h@) matches Some(s) ==> (
        r matches Some(t) && t@ == s))),
        cookie is None && (authorization matches Some(h) && bearer_of(h@) is None) ==> r is None,
        cookie is None && authorization is None ==> r is None,
{
    match cookie {
        Some(c) => Some(c.to_owned()),
        None => match authorization {
            Some(h) => {
                let n = h.unicode_len();
                if n >= 7 && h.get_char(0) == 'B' && h.get_char(1) == 'e' && h.get_char(2) == 'a'
                    && h.get_char(3) == 'r' && h.get_char(4) == 'e' && h.get_char(5) == 'r'
                    && h.get_char(6) == ' ' {
                    Some(h.substring_char(7, n).to_owned())
                } else {
                    None
                }
            },
            None => None,
        },
    }
}

/// How a request's token resolved: an opaque stored session, or a
/// self-contained signed token (kept as presented).
pub enum TokenRef {
    Session(SessionToken),
    Signed(String),
}

/// What the guard attaches to a request on success: the resolved record and
/// the credential it was resolved from. Owned by the request's lifetime only.
pub struct AuthenticatedIdentity {
    pub user: User,
    pub credential: TokenRef,
}

/// What resolving a signed token with subject `s` and expiry `exp` at time
/// `now` must yield: expired from the expiry onward, invalid when the subject
/// is not a decimal id, otherwise the record with that id — or an
/// unauthenticated rejection when no record carries it.
pub open spec fn signed_verdict(
    users: Seq<UserView>,
    s: Seq<char>,
    exp: u64,
    now: u64,
    r: Result<AuthenticatedIdentity, AuthError>,
) -> bool {
    if now >= exp {
        r == Err::<AuthenticatedIdentity, AuthError>(AuthError::ExpiredToken)
    } else if !is_u128_decimal(s) {
        r == Err::<AuthenticatedIdentity, AuthError>(AuthError::InvalidToken)
    } else {
        let uid = dec_value(s) as u128;
        if user_with_id(users, uid) {
            r matches Ok(id) && id.user@.id == uid && (exists|i: int|
                0 <= i < users.len() && #[trigger] users[i] == id.user@) && (
            id.credential matches TokenRef::Signed(_))
        } else {
            r == Err::<AuthenticatedIdentity, AuthError>(AuthError::Unauthenticated)
        }
    }
}

impl AuthService {
    /// Resolve extracted token text to an identity at time `now`.
    ///
    /// Decimal text is an opaque session token: unknown (never issued,
    /// invalidated, or pointing at a vanished record) rejects as
    /// unauthenticated, a live one resolves to its record. Any other text is
    /// checked as a signed token, with the verdict `signed_verdict` pins for
    /// every token this service's codec issued. Nothing is mutated: no
    /// sliding expiry.
    pub fn resolve_credential(&self, text: &str, now: u64) -> (r: Result<
        AuthenticatedIdentity,
        AuthError,
    >)
        ensures
            is_u128_decimal(text@) ==> {
                let v = dec_value(text@) as u128;
                &&& (!self.sessions@.contains_key(v) ==> r == Err::<
                    AuthenticatedIdentity,
                    AuthError,
                >(AuthError::Unauthenticated))
                &&& (self.sessions@.contains_key(v) && !user_with_id(
                    self.users@,
                    self.sessions@[v],
                ) ==> r == Err::<AuthenticatedIdentity, AuthError>(AuthError::Unauthenticated))
                &&& (self.sessions@.contains_key(v) && user_with_id(self.users@, self.sessions@[v])
                    ==> (r matches Ok(id) && id.user@.id == self.sessions@[v] && (exists|i: int|
                    0 <= i < self.users@.len() && #[trigger] self.users@[i] == id.user@) && (
                id.credential matches TokenRef::Session(st) && st.value() == v)))
            },
            !is_u128_decimal(text@) ==> forall|s: Seq<char>, iat: u64, exp: u64|
                text@ == #[trigger] signed_token_of(s, iat, exp, self.codec.secret_bytes())
                    ==> signed_verdict(self.users@, s, exp, now, r),
            r matches Err(e) ==> (e == AuthError::Unauthenticated || e == AuthError::InvalidToken
                || e == AuthError::ExpiredToken),
    {
        match SessionToken::from_cookie_value(text) {
            Some(tok) => {
                match self.sessions.resolve(tok) {
                    Some(uid) => match self.users.find_by_id(uid) {
                        Some(u) => Ok(
                            AuthenticatedIdentity {
                                user: u.duplicate(),
                                credential: TokenRef::Session(tok),
                            },
                        ),
                        None => Err(AuthError::Unauthenticated),
                    },
                    None => Err(AuthError::Unauthenticated),
                }
            },
            None => {
                match self.codec.verify(text, now) {
                    Ok(subject) => match crate::decimal::parse_dec_u128(subject.as_str()) {
                        Some(uid) => match self.users.find_by_id(uid) {
                            Some(u) => Ok(
                                AuthenticatedIdentity {
                                    user: u.duplicate(),
                                    credential: TokenRef::Signed(subject),
                                },
                            ),
                            None => Err(AuthError::Unauthenticated),
                        },
                        None => Err(AuthError::InvalidToken),
                    },
                    Err(e) => Err(e),
                }
            },
        }
    }

    /// Validate an inbound request from its raw transport values: a `token`
    /// cookie or an `Authorization: Bearer` header. No credential at all
    /// rejects as unauthenticated; a presented one resolves as
    /// `resolve_credential` says.
    pub fn validate_request(
        &self,
        cookie: Option<&str>,
        authorization: Option<&str>,
        now: u64,
    ) -> (r: Result<AuthenticatedIdentity, AuthError>)
        ensures
            cookie is None && authorization is None ==> r == Err::<
                AuthenticatedIdentity,
                AuthError,
            >(AuthError::Unauthenticated),
            cookie is None && (authorization matches Some(h) && bearer_of(h@) is None) ==> r
                == Err::<AuthenticatedIdentity, AuthError>(AuthError::Unauthenticated),
            r matches Err(e) ==> (e == AuthError::Unauthenticated || e == AuthError::InvalidToken
                || e == AuthError::ExpiredToken),
            cookie matches Some(c) ==> (is_u128_decimal(c@) && !self.sessions@.contains_key(
                dec_value(c@) as u128,
            ) ==> r == Err::<AuthenticatedIdentity, AuthError>(AuthError::Unauthenticated)),
            cookie matches Some(c) ==> (is_u128_decimal(c@) && self.sessions@.contains_key(
                dec_value(c@) as u128,
            ) && user_with_id(self.users@, self.sessions@[dec_value(c@) as u128]) ==> (
            r matches Ok(id) && id.user@.id == self.sessions@[dec_value(c@) as u128] && (exists|
                i: int,
            |
                0 <= i < self.users@.len() && #[trigger] self.users@[i] == id.user@))),
            cookie matches Some(c) ==> (!is_u128_decimal(c@) ==> forall|
                s: Seq<char>,
                iat: u64,
                exp: u64,
            |
                c@ == #[trigger] signed_token_of(s, iat, exp, self.codec.secret_bytes())
                    ==> signed_verdict(self.users@, s, exp, now, r)),
            cookie is None ==> (authorization matches Some(h) ==> (bearer_of(
                h@,
            ) matches Some(t) ==> {
                &&& (is_u128_decimal(t) && !self.sessions@.contains_key(dec_value(t) as u128)
                    ==> r == Err::<AuthenticatedIdentity, AuthError>(AuthError::Unauthenticated))
                &&& (is_u128_decimal(t) && self.sessions@.contains_key(dec_value(t) as u128)
                    && user_with_id(self.users@, self.sessions@[dec_value(t) as u128]) ==> (
                r matches Ok(id) && id.user@.id == self.sessions@[dec_value(t) as u128]))
                &&& (!is_u128_decimal(t) ==> forall|s: Seq<char>, iat: u64, exp: u64|
                    t == #[trigger] signed_token_of(s, iat, exp, self.codec.secret_bytes())
                        ==> signed_verdict(self.users@, s, exp, now, r))
            })),
    {
        match extract_credential(cookie, authorization) {
            Some(text) => self.resolve_credential(text.as_str(), now),
            None => Err(AuthError::Unauthenticated),
        }
    }
}

/// The Set-Cookie value that hands a fresh session to the client, under the
/// fixed cookie name the guard reads back. The cookie is scoped to the whole
/// site, kept from scripts, and sent on same-site navigation only; stored
/// sessions have no ttl of their own, so the age cap is a fixed large value.
pub fn session_cookie_header(token: SessionToken) -> (r: String)
    ensures
        r@ == "user_token="@ + crate::decimal::dec_of(token.value() as nat)
            + "; Path=/; HttpOnly; SameSite=Lax; Max-Age=9999999"@,
{
    let mut out = "user_token=".to_owned();
    let value = token.into_cookie_value();
    out.append(value.as_str());
    out.append("; Path=/; HttpOnly; SameSite=Lax; Max-Age=9999999");
    out
}

/// The Set-Cookie value that clears the session cookie on logout, under the
/// same scope attributes so that the cleared cookie matches the one set.
pub fn logout_cookie_header() -> (r: String)
    ensures
        r@ == "user_token=_; Path=/; HttpOnly; SameSite=Lax; Max-Age=0"@,
{
    "user_token=_; Path=/; HttpOnly; SameSite=Lax; Max-Age=0".to_owned()
}

/// The per-request authentication state the session middleware attaches: the
/// presented session token, if one parsed, and a per-request memo of the
/// fetched record.
pub struct AuthState {
    token: Option<SessionToken>,
    cached: Option<User>,
}

impl AuthState {
    /// The token the request presented, if any.
    pub closed spec fn spec_token(&self) -> Option<SessionToken> {
        self.token
    }

    /// The memoized record, if one was fetched for this request.
    pub closed spec fn spec_cached(&self) -> Option<UserView> {
        match self.cached {
            Some(u) => Some(u@),
            None => None,
        }
    }

    /// Build the request's state from the session-token header: carrying the
    /// parsed token when the header is decimal text in range, empty
    /// otherwise. Nothing is fetched yet.
    pub fn from_header(header: Option<&str>) -> (r: AuthState)
        ensures
            r.spec_cached() is None,
            match header {
                None => r.spec_token() is None,
                Some(h) => {
                    if is_u128_decimal(h@) {
                        r.spec_token() matches Some(t) && t.value() as nat == dec_value(h@)
                    } else {
                        r.spec_token() is None
                    }
                },
            },
    {
        match header {
            Some(h) => AuthState { token: SessionToken::from_cookie_value(h), cached: None },
            None => AuthState { token: None, cached: None },
        }
    }

    /// Whether the request presented a parseable session token.
    pub fn logged_in(&self) -> (r: bool)
        ensures
            r == (self.spec_token() is Some),
    {
        self.token.is_some()
    }

    /// The record behind the request's session token, fetched once per
    /// request and memoized.
    ///
    /// Nothing comes back without a token; a memoized record is returned as
    /// is; otherwise the token is resolved against the store and, when its
    /// record exists, that record is memoized and returned. The token itself
    /// never changes, and a miss changes nothing.
    pub fn get_user(&mut self, users: &UserRepository, sessions: &SessionStore) -> (r: Option<
        &User,
    >)
        ensures
            final(self).spec_token() == old(self).spec_token(),
            old(self).spec_token() is None ==> r is None && *final(self) == *old(self),
            old(self).spec_cached() matches Some(cv) ==> (old(self).spec_token() is Some ==> (
            r matches Some(u) && u@ == cv && *final(self) == *old(self))),
            old(self).spec_token() matches Some(t) ==> (old(self).spec_cached() is None
                && !sessions@.contains_key(t.value()) ==> r is None && *final(self) == *old(self)),
            old(self).spec_token() matches Some(t) ==> (old(self).spec_cached() is None
                && sessions@.contains_key(t.value()) && !user_with_id(users@, sessions@[t.value()])
                ==> r is None && *final(self) == *old(self)),
            old(self).spec_token() matches Some(t) ==> (old(self).spec_cached() is None
                && sessions@.contains_key(t.value()) && user_with_id(users@, sessions@[t.value()])
                ==> (r matches Some(u) && u@.id == sessions@[t.value()] && (exists|i: int|
                0 <= i < users@.len() && #[trigger] users@[i] == u@)
                && final(self).spec_cached() == Some(u@))),
    {
        let tok = match self.token {
            Some(t) => t,
            None => {
                return None;
            },
        };
        if self.cached.is_some() {
            return self.cached.as_ref();
        }
        match sessions.resolve(tok) {
            Some(uid) => match users.find_by_id(uid) {
                Some(u) => {
                    self.cached = Some(u.duplicate());
                    self.cached.as_ref()
                },
                None => None,
            },
            None => None,
        }
    }
}

} // verus!
