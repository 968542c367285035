//! Error kinds of the credential subsystem, and the response shape the web
//! layer reports them with.
//!
//! `InvalidCredentials` covers both an unknown email and a wrong password, so
//! that a caller cannot tell from the error whether an email is registered.
use vstd::prelude::*;

verus! {

/// Everything that can go wrong while authenticating a credential, issuing a
/// token, or validating a request.
#[derive(Clone, Copy, PartialEq, Eq, Structural, Debug)]
pub enum AuthError {
    /// Unknown email or wrong password; the two are never distinguished.
    InvalidCredentials,
    /// Signup with an email that is already registered.
    Conflict,
    /// A signed token whose structure or signature is not acceptable.
    InvalidToken,
    /// A well-formed signed token past its expiry.
    ExpiredToken,
    /// No credential was presented, or an opaque session is unknown.
    Unauthenticated,
    /// The backing store failed; reported as an internal error.
    StoreError,
    /// The password hasher failed; reported as an internal error.
    HashingError,
}

impl AuthError {
    /// The HTTP status class the web layer answers with for this error.
    pub fn status_code(&self) -> (code: u16)
        ensures
            code == self.spec_status_code(),
    {
        match self {
            AuthError::InvalidCredentials => 400,
            AuthError::Conflict => 409,
            AuthError::InvalidToken => 401,
            AuthError::ExpiredToken => 401,
            AuthError::Unauthenticated => 401,
            AuthError::StoreError => 500,
            AuthError::HashingError => 500,
        }
    }

    pub open spec fn spec_status_code(&self) -> u16 {
        match self {
            AuthError::InvalidCredentials => 400u16,
            AuthError::Conflict => 409u16,
            AuthError::InvalidToken => 401u16,
            AuthError::ExpiredToken => 401u16,
            AuthError::Unauthenticated => 401u16,
            AuthError::StoreError => 500u16,
            AuthError::HashingError => 500u16,
        }
    }

    /// The message shown to the caller. Internal detail is never exposed, and
    /// the text for `InvalidCredentials` does not depend on which of the two
    /// underlying causes fired.
    pub fn public_message(&self) -> (msg: &'static str)
        ensures
            msg@ == self.spec_public_message(),
    {
        match self {
            AuthError::InvalidCredentials => "Invalid email or password",
            AuthError::Conflict => "User already exists",
            AuthError::InvalidToken => "Invalid token",
            AuthError::ExpiredToken => "Invalid token",
            AuthError::Unauthenticated => "You are not logged in, please provide a token",
            AuthError::StoreError => "Internal server error",
            AuthError::HashingError => "Internal server error",
        }
    }

    pub open spec fn spec_public_message(&self) -> Seq<char> {
        match self {
            AuthError::InvalidCredentials => "Invalid email or password"@,
            AuthError::Conflict => "User already exists"@,
            AuthError::InvalidToken => "Invalid token"@,
            AuthError::ExpiredToken => "Invalid token"@,
            AuthError::Unauthenticated => "You are not logged in, please provide a token"@,
            AuthError::StoreError => "Internal server error"@,
            AuthError::HashingError => "Internal server error"@,
        }
    }
}

/// The JSON error envelope the web layer serializes: a fixed status word and
/// a message.
pub struct ErrorResponse {
    pub status: &'static str,
    pub message: String,
}

impl ErrorResponse {
    /// Build the externally observable response for an error. Two errors that
    /// are the same variant always map to the same response.
    pub fn of_error(err: &AuthError) -> (r: ErrorResponse)
        ensures
            r.status@ == "error"@,
            r.message@ == err.spec_public_message(),
    {
        ErrorResponse { status: "error", message: err.public_message().to_owned() }
    }
}

} // verus!
