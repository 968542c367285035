//! Password hashing and verification.
//!
//! A plaintext credential is salted and hashed with Argon2; the stored value
//! is a self-describing PHC string holding algorithm parameters, salt and
//! digest. Whether a plaintext matches a stored string is a deterministic
//! function of the two values alone; `phc_verifies` names it, and both the
//! hashing and the verifying side speak of that name.
use vstd::prelude::*;

verus! {

/// Whether Argon2 verification accepts `password` against the PHC string
/// `stored`. This is the result of parsing `stored` and recomputing the hash
/// with the salt and parameters embedded in it (the hash reads the
/// password's UTF-8 bytes, a function of its characters); a malformed
/// `stored` never verifies (the check fails closed).
pub uninterp spec fn phc_verifies(password: Seq<char>, stored: Seq<char>) -> bool;

/// The longest password text the hasher is promised to accept: the algorithm
/// caps the password's byte length at one below two to the thirty-second, and
/// a character is at most four UTF-8 bytes.
pub const MAX_PASSWORD_CHARS: usize = 0x3fffffff;

/// Relies on `argon2::Argon2::hash_password` (through the
/// `password_hash::PasswordHasher` trait) with a fresh random salt from the
/// OS entropy source. The salt is random, so nothing is said about the
/// returned string itself; the crate documents that a string produced this
/// way verifies against the same password, which is the one fact stated of
/// it. The call succeeds whenever the password is within the length cap: the
/// generated salt is always in range, and the default parameters, output
/// length and block count are valid by construction.
#[verifier::external_body]
fn argon2_hash(password: &str) -> (r: Option<String>)
    ensures
        r matches Some(h) ==> phc_verifies(password@, h@),
        password@.len() <= MAX_PASSWORD_CHARS ==> r is Some,
{
    let salt = argon2::password_hash::SaltString::generate(&mut rand_core::OsRng);
    argon2::PasswordHasher::hash_password(&argon2::Argon2::default(), password.as_bytes(), &salt)
        .ok()
        .map(|h| h.to_string())
}

/// Relies on `argon2::password_hash::PasswordHash::new` to parse the stored
/// PHC string and `argon2::Argon2::verify_password` to recompute and compare
/// the digest; together they are a deterministic function of the two
/// arguments, named `phc_verifies`. A string that does not parse is reported
/// as a mismatch, not an error.
#[verifier::external_body]
fn argon2_verify(password: &str, stored: &str) -> (r: bool)
    ensures
        r == phc_verifies(password@, stored@),
{
    match argon2::password_hash::PasswordHash::new(stored) {
        Ok(parsed) => argon2::PasswordVerifier::verify_password(
            &argon2::Argon2::default(),
            password.as_bytes(),
            &parsed,
        ).is_ok(),
        Err(_) => false,
    }
}

/// Salt and hash a plaintext password.
///
/// Every returned string verifies against the password it was derived from;
/// because the salt is drawn fresh on each call, two calls on the same
/// password are expected to return different strings, and nothing more is
/// promised about the string's value. Hashing succeeds for every password
/// within the length cap; a failure beyond it is reported as `HashingError`.
pub fn hash_password(password: &str) -> (r: Result<String, crate::errors::AuthError>)
    ensures
        r matches Ok(h) ==> phc_verifies(password@, h@),
        password@.len() <= MAX_PASSWORD_CHARS ==> r is Ok,
        r is Err ==> r == Err::<String, _>(crate::errors::AuthError::HashingError),
{
    match argon2_hash(password) {
        Some(h) => Ok(h),
        None => Err(crate::errors::AuthError::HashingError),
    }
}

/// Check a plaintext password against a stored PHC string.
///
/// Returns exactly `phc_verifies(password, stored)`: the recomputed digest
/// comparison, false on any malformed stored string. The result leaks
/// nothing about why a mismatch happened.
pub fn verify_password(password: &str, stored: &str) -> (r: bool)
    ensures
        r == phc_verifies(password@, stored@),
{
    argon2_verify(password, stored)
}

} // verus!
