//! Stateless signed tokens: self-contained credentials carrying a subject and
//! an expiry, verifiable without a store lookup.
//!
//! A token is the HMAC-signed encoding of the payload `{subject, issued_at,
//! expiry}` under the process-wide secret. For fixed payload and secret the
//! encoder's output is one exact string; `signed_token_of` names it, and the
//! decode side promises that exactly that string decodes back to the payload.
//! The expiry check itself is verified code: a token is accepted only while
//! `now < expiry`, with the fixed one-hour ttl set at issue time.
use vstd::prelude::*;

verus! {

/// The payload carried inside a signed token, in epoch seconds.
pub struct JwtPayload {
    pub subject: String,
    pub issued_at: u64,
    pub expiry: u64,
}

impl JwtPayload {
    /// A payload is well formed when it expires strictly after it was issued.
    pub open spec fn wf(&self) -> bool {
        self.issued_at < self.expiry
    }

    /// Build the payload issued at `now` with the fixed ttl.
    pub fn new(subject: String, now: u64) -> (r: JwtPayload)
        requires
            now + TOKEN_TTL_SECONDS <= u64::MAX,
        ensures
            r.subject == subject,
            r.issued_at == now,
            r.expiry == now + TOKEN_TTL_SECONDS,
            r.wf(),
    {
        JwtPayload { subject, issued_at: now, expiry: now + TOKEN_TTL_SECONDS }
    }
}

/// The validity duration of a signed token, fixed at one hour.
pub const TOKEN_TTL_SECONDS: u64 = 3600;

/// The one token string that signing the payload `{subject, issued_at,
/// expiry}` under `secret` produces. The encoding is a deterministic function
/// of these arguments alone: header and claim serialization are canonical and
/// the HMAC signature is deterministic.
pub uninterp spec fn signed_token_of(
    subject: Seq<char>,
    issued_at: u64,
    expiry: u64,
    secret: Seq<u8>,
) -> Seq<char>;

/// Relies on `jsonwebtoken::encode` with the default header (HS256) and an
/// HMAC key from `secret`: signs the claims object `{subject, issued_at,
/// expiry}`. The claims map serializes with sorted keys, so the output is the
/// function of the arguments named `signed_token_of`. The call cannot fail
/// here: the key family matches the header's algorithm, serializing a JSON
/// object of string and integer values cannot fail, and HMAC signing is total
/// for any key length.
#[verifier::external_body]
fn jwt_encode_raw(subject: &str, issued_at: u64, expiry: u64, secret: &[u8]) -> (r: String)
    ensures
        r@ == signed_token_of(subject@, issued_at, expiry, secret@),
{
    let mut claims = serde_json::Map::new();
    claims.insert("subject".to_string(), serde_json::Value::String(subject.to_string()));
    claims.insert("issued_at".to_string(), serde_json::Value::from(issued_at));
    claims.insert("expiry".to_string(), serde_json::Value::from(expiry));
    let key = jsonwebtoken::EncodingKey::from_secret(secret);
    jsonwebtoken::encode(&jsonwebtoken::Header::default(), &serde_json::Value::Object(claims), &key)
        .expect("HS256 encoding of plain claims is total")
}

/// Whether `r` answers every payload whose signed encoding under `secret` is
/// `token`: for each such payload, `r` is exactly that payload.
pub open spec fn decodes_signed(token: Seq<char>, secret: Seq<u8>, r: Option<
    (String, u64, u64),
>) -> bool {
    forall|s: Seq<char>, iat: u64, exp: u64|
        token == #[trigger] signed_token_of(s, iat, exp, secret) ==> (r matches Some(p) && p.0@
            == s && p.1 == iat && p.2 == exp)
}

/// Relies on `jsonwebtoken::decode` restricted to HS256, with the library's
/// own expiry validation turned off (the verified caller checks expiry
/// against its own clock): splits the token, checks the HMAC signature under
/// `secret`, and reads the claims back. A token that `jsonwebtoken::encode`
/// built from some payload under the same secret — exactly the strings named
/// by `signed_token_of` — decodes back to that payload; nothing is claimed
/// about other accepted inputs.
#[verifier::external_body]
fn jwt_decode_raw(token: &str, secret: &[u8]) -> (r: Option<(String, u64, u64)>)
    ensures
        decodes_signed(token@, secret@, r),
{
    let mut validation = jsonwebtoken::Validation::new(jsonwebtoken::Algorithm::HS256);
    validation.validate_exp = false;
    validation.required_spec_claims = std::collections::HashSet::new();
    let key = jsonwebtoken::DecodingKey::from_secret(secret);
    let data = jsonwebtoken::decode::<serde_json::Value>(token, &key, &validation).ok()?;
    let sub = data.claims.get("subject")?.as_str()?.to_string();
    let iat = data.claims.get("issued_at")?.as_u64()?;
    let exp = data.claims.get("expiry")?.as_u64()?;
    Some((sub, iat, exp))
}

/// What verification must return for a token that carries subject `s` and
/// expiry `exp`, when checked at `now`: the subject strictly before expiry,
/// the expiry error from the expiry onward.
pub open spec fn expected_verdict(
    s: Seq<char>,
    exp: u64,
    now: u64,
    r: Result<String, crate::errors::AuthError>,
) -> bool {
    if now < exp {
        r matches Ok(sub) && sub@ == s
    } else {
        r == Err::<String, crate::errors::AuthError>(crate::errors::AuthError::ExpiredToken)
    }
}

/// Issues and verifies signed tokens under one process-wide secret, loaded
/// once at startup and never mutated.
pub struct TokenCodec {
    secret: Vec<u8>,
}

impl TokenCodec {
    /// The signing secret. A trust boundary: whoever holds it can mint valid
    /// identities, so it is never echoed by any library function.
    pub closed spec fn secret_bytes(&self) -> Seq<u8> {
        self.secret@
    }

    pub fn new(secret: Vec<u8>) -> (r: TokenCodec)
        ensures
            r.secret_bytes() == secret@,
    {
        TokenCodec { secret }
    }

    /// Sign a payload for `subject` issued at `now`, expiring one ttl later.
    /// The returned string is exactly the signed encoding of that payload.
    pub fn issue(&self, subject: &str, now: u64) -> (r: String)
        requires
            now + TOKEN_TTL_SECONDS <= u64::MAX,
        ensures
            r@ == signed_token_of(
                subject@,
                now,
                (now + TOKEN_TTL_SECONDS) as u64,
                self.secret_bytes(),
            ),
    {
        jwt_encode_raw(subject, now, now + TOKEN_TTL_SECONDS, self.secret.as_slice())
    }

    /// Decode and check a presented token string at time `now`.
    ///
    /// For any token this codec issued (a string `signed_token_of` names
    /// under this secret), the outcome is pinned: the subject comes back
    /// while `now < expiry`, and from the expiry onward the token is
    /// rejected as expired. Any failure is one of the two token errors:
    /// a malformed or foreign-signed token is invalid, an outdated one
    /// expired.
    pub fn verify(&self, token: &str, now: u64) -> (r: Result<String, crate::errors::AuthError>)
        ensures
            forall|s: Seq<char>, iat: u64, exp: u64|
                token@ == #[trigger] signed_token_of(s, iat, exp, self.secret_bytes())
                    ==> expected_verdict(s, exp, now, r),
            r matches Err(e) ==> (e == crate::errors::AuthError::InvalidToken || e
                == crate::errors::AuthError::ExpiredToken),
    {
        match jwt_decode_raw(token, self.secret.as_slice()) {
            Some((sub, _iat, exp)) => {
                if now < exp {
                    Ok(sub)
                } else {
                    Err(crate::errors::AuthError::ExpiredToken)
                }
            },
            None => Err(crate::errors::AuthError::InvalidToken),
        }
    }
}

/// The ttl window law: a token issued with `now = t0` carries expiry
/// `t0 + 3600`, so whatever `verify` returns for it at `t0 + 3599` is the
/// subject, and at `t0 + 3601` it is exactly the expiry error.
pub proof fn lemma_ttl_window(
    s: Seq<char>,
    t0: u64,
    r_before: Result<String, crate::errors::AuthError>,
    r_after: Result<String, crate::errors::AuthError>,
)
    requires
        t0 + TOKEN_TTL_SECONDS + 1 <= u64::MAX,
        expected_verdict(s, (t0 + TOKEN_TTL_SECONDS) as u64, (t0 + 3599) as u64, r_before),
        expected_verdict(s, (t0 + TOKEN_TTL_SECONDS) as u64, (t0 + 3601) as u64, r_after),
    ensures
        r_before matches Ok(sub) && sub@ == s,
        r_after == Err::<String, crate::errors::AuthError>(crate::errors::AuthError::ExpiredToken),
{
}

} // verus!
