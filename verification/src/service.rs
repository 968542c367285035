//! The authenticator: checks a credential against the user repository, then
//! issues either an opaque stored session (the primary mechanism, revocable)
//! or a stateless signed token.
//!
//! No error path reveals whether an email is registered: an unknown email and
//! a wrong password surface as one and the same error.
use vstd::prelude::*;

verus! {

use crate::errors::AuthError;
use crate::password::phc_verifies;
use crate::session::SessionStore;
use crate::session::SessionToken;
use crate::token::TokenCodec;
use crate::token::TOKEN_TTL_SECONDS;
use crate::token::signed_token_of;
use crate::users::CreateUserSchema;
use crate::users::LoginUserSchema;
use crate::users::RepoError;
use crate::users::User;
use crate::users::UserRepository;
use crate::users::UserRole;
use crate::users::UserView;
use crate::users::email_eq;
use crate::users::repo_wf;

/// Whether some stored record carries this email (case-insensitively).
pub open spec fn email_known(users: Seq<UserView>, email: Seq<char>) -> bool {
    exists|i: int| 0 <= i < users.len() && email_eq((#[trigger] users[i]).email, email)
}

/// Whether the credential `email` / `password` is accepted against the
/// records: some record carries the email and the password verifies against
/// that record's stored hash.
pub open spec fn credential_accepted(
    users: Seq<UserView>,
    email: Seq<char>,
    password: Seq<char>,
) -> bool {
    exists|i: int|
        0 <= i < users.len() && email_eq((#[trigger] users[i]).email, email) && phc_verifies(
            password,
            users[i].password,
        )
}

/// An accepted credential names a known email.
pub proof fn lemma_accepted_implies_known(users: Seq<UserView>, email: Seq<char>, password: Seq<char>)
    ensures
        credential_accepted(users, email, password) ==> email_known(users, email),
{
    if credential_accepted(users, email, password) {
        let i = choose|i: int|
            0 <= i < users.len() && email_eq((#[trigger] users[i]).email, email) && phc_verifies(
                password,
                users[i].password,
            );
        assert(0 <= i < users.len() && email_eq(users[i].email, email));
    }
}

/// Two texts each case-insensitively equal to a third are so to each other.
pub proof fn lemma_email_eq_common(a: Seq<char>, b: Seq<char>, q: Seq<char>)
    requires
        email_eq(a, q),
        email_eq(b, q),
    ensures
        email_eq(a, b),
{
    assert forall|i: int| 0 <= i < a.len() implies crate::users::lower_code(a[i])
        == crate::users::lower_code(#[trigger] b[i]) by {
        assert(crate::users::lower_code(a[i]) == crate::users::lower_code(q[i]));
        assert(crate::users::lower_code(b[i]) == crate::users::lower_code(q[i]));
    }
}

/// The session and credential core in one place: the user records it reads,
/// the session store it fills, and the codec it signs with.
pub struct AuthService {
    pub users: UserRepository,
    pub sessions: SessionStore,
    pub codec: TokenCodec,
}

impl AuthService {
    /// The service invariant: the record store is well formed.
    pub open spec fn wf(&self) -> bool {
        repo_wf(self.users@)
    }

    /// A fresh service around a signing secret: no records, no sessions.
    pub fn new(secret: Vec<u8>) -> (r: AuthService)
        ensures
            r.wf(),
            r.users@ =~= Seq::<UserView>::empty(),
            r.sessions@ =~= Map::<u128, u128>::empty(),
            r.codec.secret_bytes() == secret@,
    {
        AuthService {
            users: UserRepository::new(),
            sessions: SessionStore::new(),
            codec: TokenCodec::new(secret),
        }
    }

    /// In a well-formed store, every record carrying an accepted credential's
    /// email also carries a hash the password verifies against: emails are
    /// unique, so the one matching record decides.
    proof fn lemma_unique_email_match(users: Seq<UserView>, i0: int, email: Seq<char>)
        requires
            repo_wf(users),
            0 <= i0 < users.len(),
            email_eq(users[i0].email, email),
        ensures
            forall|j: int|
                0 <= j < users.len() && email_eq((#[trigger] users[j]).email, email) ==> j == i0,
    {
        assert forall|j: int|
            0 <= j < users.len() && email_eq((#[trigger] users[j]).email, email) implies j
            == i0 by {
            if j != i0 {
                lemma_email_eq_common(users[j].email, users[i0].email, email);
                if j < i0 {
                    assert(!email_eq(users[j].email, users[i0].email));
                } else {
                    assert(!email_eq(users[i0].email, users[j].email));
                    lemma_email_eq_common(users[i0].email, users[j].email, email);
                }
            }
        }
    }

    /// Authenticate a credential and establish a stored session.
    ///
    /// The record is fetched by email (case-insensitively); an unknown email
    /// and a failed password check surface identically as invalid
    /// credentials, with nothing stored. On acceptance a fresh session is
    /// created for the matching record's id and its token returned; the only
    /// other failure is the store giving up on colliding draws. Records are
    /// never mutated.
    pub fn login(&mut self, random: &mut crate::rng::Rng, schema: &LoginUserSchema) -> (r: Result<
        SessionToken,
        AuthError,
    >)
        requires
            old(self).wf(),
        ensures
            final(self).wf(),
            final(self).users@ == old(self).users@,
            final(self).codec == old(self).codec,
            !credential_accepted(old(self).users@, schema.email@, schema.password@) ==> r
                == Err::<SessionToken, AuthError>(AuthError::InvalidCredentials),
            r == Err::<SessionToken, AuthError>(AuthError::InvalidCredentials)
                ==> !credential_accepted(old(self).users@, schema.email@, schema.password@),
            r is Err ==> final(self).sessions@ == old(self).sessions@ && (r == Err::<
                SessionToken,
                AuthError,
            >(AuthError::InvalidCredentials) || r == Err::<SessionToken, AuthError>(
                AuthError::StoreError,
            )),
            r matches Ok(t) ==> credential_accepted(old(self).users@, schema.email@, schema.password@)
                && !old(self).sessions@.contains_key(t.value()) && exists|i: int|
                0 <= i < old(self).users@.len() && email_eq(
                    (#[trigger] old(self).users@[i]).email,
                    schema.email@,
                ) && phc_verifies(schema.password@, old(self).users@[i].password)
                    && final(self).sessions@ == old(self).sessions@.insert(
                    t.value(),
                    old(self).users@[i].id,
                ),
    {
        let user = match self.users.find_by_email(schema.email.as_str()) {
            Some(u) => u,
            None => {
                proof {
                    if credential_accepted(self.users@, schema.email@, schema.password@) {
                        lemma_accepted_implies_known(self.users@, schema.email@, schema.password@);
                    }
                }
                return Err(AuthError::InvalidCredentials);
            },
        };
        let ghost i0 = choose|i: int|
            0 <= i < self.users@.len() && #[trigger] self.users@[i] == user@;
        if !crate::password::verify_password(schema.password.as_str(), user.password.as_str()) {
            proof {
                Self::lemma_unique_email_match(self.users@, i0, schema.email@);
                assert(!phc_verifies(schema.password@, self.users@[i0].password));
            }
            return Err(AuthError::InvalidCredentials);
        }
        let user_id = user.id;
        proof {
            assert(email_eq(self.users@[i0].email, schema.email@) && phc_verifies(
                schema.password@,
                self.users@[i0].password,
            ));
        }
        match self.sessions.create(random, user_id) {
            Ok(t) => Ok(t),
            Err(_) => Err(AuthError::StoreError),
        }
    }

    /// Authenticate a credential and issue a stateless signed token instead
    /// of a stored session: nothing is persisted, and the token carries the
    /// matching record's id as its subject with the fixed ttl from `now`.
    /// Rejections are exactly as for `login`; every accepted credential gets
    /// a token.
    pub fn login_signed(&self, schema: &LoginUserSchema, now: u64) -> (r: Result<String, AuthError>)
        requires
            self.wf(),
            now + TOKEN_TTL_SECONDS <= u64::MAX,
        ensures
            credential_accepted(self.users@, schema.email@, schema.password@) <==> r is Ok,
            !credential_accepted(self.users@, schema.email@, schema.password@) ==> r == Err::<
                String,
                AuthError,
            >(AuthError::InvalidCredentials),
            r matches Ok(tok) ==> exists|i: int|
                0 <= i < self.users@.len() && email_eq(
                    (#[trigger] self.users@[i]).email,
                    schema.email@,
                ) && phc_verifies(schema.password@, self.users@[i].password) && tok@
                    == signed_token_of(
                    crate::decimal::dec_of(self.users@[i].id as nat),
                    now,
                    (now + TOKEN_TTL_SECONDS) as u64,
                    self.codec.secret_bytes(),
                ),
    {
        let user = match self.users.find_by_email(schema.email.as_str()) {
            Some(u) => u,
            None => {
                proof {
                    if credential_accepted(self.users@, schema.email@, schema.password@) {
                        lemma_accepted_implies_known(self.users@, schema.email@, schema.password@);
                    }
                }
                return Err(AuthError::InvalidCredentials);
            },
        };
        let ghost i0 = choose|i: int|
            0 <= i < self.users@.len() && #[trigger] self.users@[i] == user@;
        if !crate::password::verify_password(schema.password.as_str(), user.password.as_str()) {
            proof {
                Self::lemma_unique_email_match(self.users@, i0, schema.email@);
                assert(!phc_verifies(schema.password@, self.users@[i0].password));
            }
            return Err(AuthError::InvalidCredentials);
        }
        let subject = crate::decimal::u128_to_dec_string(user.id);
        let tok = self.codec.issue(subject.as_str(), now);
        proof {
            assert(email_eq(self.users@[i0].email, schema.email@) && phc_verifies(
                schema.password@,
                self.users@[i0].password,
            ));
        }
        Ok(tok)
    }

    /// Register a new user and immediately establish a session for it.
    ///
    /// An already-registered email (case-insensitively) is a conflict, and
    /// exactly then; a conflict changes nothing. On success one record is
    /// appended — carrying the given names and email, a fresh salted hash the
    /// password verifies against (never the plaintext), and the standard
    /// role — and a fresh session for its id is stored. Every failure leaves
    /// records and sessions exactly as they were.
    pub fn signup(&mut self, random: &mut crate::rng::Rng, body: &CreateUserSchema) -> (r: Result<
        SessionToken,
        AuthError,
    >)
        requires
            old(self).wf(),
        ensures
            final(self).wf(),
            final(self).codec == old(self).codec,
            email_known(old(self).users@, body.email@) <==> r == Err::<SessionToken, AuthError>(
                AuthError::Conflict,
            ),
            r is Err ==> final(self).users@ == old(self).users@
                && final(self).sessions@ == old(self).sessions@
                && (r == Err::<SessionToken, AuthError>(AuthError::Conflict) || r == Err::<
                SessionToken,
                AuthError,
            >(AuthError::StoreError) || r == Err::<SessionToken, AuthError>(
                AuthError::HashingError,
            )),
            body.password@.len() <= crate::password::MAX_PASSWORD_CHARS ==> r != Err::<
                SessionToken,
                AuthError,
            >(AuthError::HashingError),
            r matches Ok(t) ==> {
                let added = final(self).users@.last();
                &&& final(self).users@ == old(self).users@.push(added)
                &&& added.first_name == body.first_name@
                &&& added.last_name == body.last_name@
                &&& added.email == body.email@
                &&& phc_verifies(body.password@, added.password)
                &&& added.role == UserRole::USER
                &&& added.created_at == None::<u64>
                &&& added.updated_at == None::<u64>
                &&& !old(self).sessions@.contains_key(t.value())
                &&& final(self).sessions@ == old(self).sessions@.insert(t.value(), added.id)
            },
    {
        if self.users.find_by_email(body.email.as_str()).is_some() {
            return Err(AuthError::Conflict);
        }
        let hashed = match crate::password::hash_password(body.password.as_str()) {
            Ok(h) => h,
            Err(e) => {
                return Err(e);
            },
        };
        let id = random.next_u128();
        let record = User {
            id,
            first_name: body.first_name.clone(),
            last_name: body.last_name.clone(),
            email: body.email.clone(),
            password: hashed,
            role: UserRole::USER,
            created_at: None,
            updated_at: None,
        };
        let ghost rv = record@;
        let ghost prior_users = self.users@;
        match self.users.insert(record) {
            Ok(()) => {},
            Err(RepoError::DuplicateEmail) => {
                return Err(AuthError::Conflict);
            },
            Err(_) => {
                return Err(AuthError::StoreError);
            },
        }
        match self.sessions.create(random, id) {
            Ok(t) => {
                proof {
                    assert(final(self).users@.last() == rv);
                }
                Ok(t)
            },
            Err(_) => {
                // Roll back the freshly inserted record so that a failed
                // signup leaves no trace.
                let ghost pushed = self.users@;
                let deleted = self.users.delete(id);
                proof {
                    assert(pushed == prior_users.push(rv));
                    assert(pushed[prior_users.len() as int].id == id);
                    assert(deleted is Ok);
                    let i = choose|i: int|
                        0 <= i < pushed.len() && (#[trigger] pushed[i]).id == id && self.users@
                            == pushed.remove(i);
                    assert(forall|j: int|
                        0 <= j < prior_users.len() ==> (#[trigger] pushed[j]).id != id);
                    assert(i == prior_users.len() as int);
                    assert(self.users@ =~= prior_users);
                }
                Err(AuthError::StoreError)
            },
        }
    }

    /// Establish a session for a user id directly (the post-signup path the
    /// web layer may also call on its own).
    pub fn create_session(&mut self, random: &mut crate::rng::Rng, user_id: u128) -> (r: Result<
        SessionToken,
        AuthError,
    >)
        ensures
            final(self).users@ == old(self).users@,
            final(self).codec == old(self).codec,
            r matches Ok(t) ==> !old(self).sessions@.contains_key(t.value()) && final(self).sessions@
                == old(self).sessions@.insert(t.value(), user_id),
            r is Err ==> r == Err::<SessionToken, AuthError>(AuthError::StoreError)
                && final(self).sessions@ == old(self).sessions@,
    {
        self.sessions.create(random, user_id)
    }

    /// End a session (logout): afterwards the token no longer resolves.
    /// Idempotent, and nothing else changes.
    pub fn end_session(&mut self, token: SessionToken)
        ensures
            final(self).users@ == old(self).users@,
            final(self).codec == old(self).codec,
            final(self).sessions@ == old(self).sessions@.remove(token.value()),
    {
        self.sessions.invalidate(token);
    }
}

/// Rejected logins are observably identical: whatever mix of unknown email
/// and wrong password two rejected attempts are, both come back as the same
/// invalid-credentials error, with one status code and one message.
pub proof fn lemma_login_rejections_identical(
    users1: Seq<UserView>,
    email1: Seq<char>,
    password1: Seq<char>,
    r1: Result<SessionToken, AuthError>,
    users2: Seq<UserView>,
    email2: Seq<char>,
    password2: Seq<char>,
    r2: Result<SessionToken, AuthError>,
)
    requires
        !credential_accepted(users1, email1, password1),
        !credential_accepted(users2, email2, password2),
        !credential_accepted(users1, email1, password1) ==> r1 == Err::<SessionToken, AuthError>(
            AuthError::InvalidCredentials,
        ),
        !credential_accepted(users2, email2, password2) ==> r2 == Err::<SessionToken, AuthError>(
            AuthError::InvalidCredentials,
        ),
    ensures
        r1 == r2,
        (r1->Err_0).spec_status_code() == (r2->Err_0).spec_status_code(),
        (r1->Err_0).spec_public_message() == (r2->Err_0).spec_public_message(),
{
}

} // verus!
