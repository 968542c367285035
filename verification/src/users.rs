//! User records and the repository the credential core reads them from.
//!
//! A record's `password` field always holds a PHC hash string, never a
//! plaintext, from the moment of creation onward. Emails are compared
//! case-insensitively (ASCII folding), and the repository keeps both ids and
//! emails unique. The store is modelled in memory; it is the system of
//! record the auth core consults, and the core itself only ever reads records
//! (creation and mutation go through the repository operations below).
use vstd::prelude::*;
use vstd::string::StrSliceExecFns;

verus! {

/// Role attribute carried on every user record.
#[derive(Clone, Copy, PartialEq, Eq, Structural, Debug)]
pub enum UserRole {
    ADMIN,
    USER,
    GUEST,
}

/// A stored user record. `password` holds the salted hash string.
pub struct User {
    pub id: u128,
    pub first_name: String,
    pub last_name: String,
    pub email: String,
    pub password: String,
    pub role: UserRole,
    pub created_at: Option<u64>,
    pub updated_at: Option<u64>,
}

/// The mathematical content of a user record.
pub ghost struct UserView {
    pub id: u128,
    pub first_name: Seq<char>,
    pub last_name: Seq<char>,
    pub email: Seq<char>,
    pub password: Seq<char>,
    pub role: UserRole,
    pub created_at: Option<u64>,
    pub updated_at: Option<u64>,
}

impl View for User {
    type V = UserView;

    open spec fn view(&self) -> UserView {
        UserView {
            id: self.id,
            first_name: self.first_name@,
            last_name: self.last_name@,
            email: self.email@,
            password: self.password@,
            role: self.role,
            created_at: self.created_at,
            updated_at: self.updated_at,
        }
    }
}

impl User {
    /// A field-for-field copy; the views agree exactly.
    pub fn duplicate(&self) -> (r: User)
        ensures
            r@ == self@,
    {
        User {
            id: self.id,
            first_name: self.first_name.clone(),
            last_name: self.last_name.clone(),
            email: self.email.clone(),
            password: self.password.clone(),
            role: self.role,
            created_at: self.created_at,
            updated_at: self.updated_at,
        }
    }
}

/// What a record looks like to callers: everything but the password hash.
pub struct UserResponse {
    pub id: u128,
    pub first_name: String,
    pub last_name: String,
    pub email: String,
    pub role: UserRole,
    pub created_at: Option<u64>,
    pub updated_at: Option<u64>,
}

/// Convert a stored record to its response shape: the same fields, with the
/// password hash left out.
pub fn map_user_to_response(user: &User) -> (r: UserResponse)
    ensures
        r.id == user@.id,
        r.first_name@ == user@.first_name,
        r.last_name@ == user@.last_name,
        r.email@ == user@.email,
        r.role == user@.role,
        r.created_at == user@.created_at,
        r.updated_at == user@.updated_at,
{
    UserResponse {
        id: user.id,
        first_name: user.first_name.clone(),
        last_name: user.last_name.clone(),
        email: user.email.clone(),
        role: user.role,
        created_at: user.created_at,
        updated_at: user.updated_at,
    }
}

/// The body of a signup request: names, email, and the plaintext password
/// (transient; only its hash is ever stored).
pub struct CreateUserSchema {
    pub first_name: String,
    pub last_name: String,
    pub email: String,
    pub password: String,
}

/// The body of an update request. The update flow applies the two names and
/// the email; password and role changes go through their own flows.
pub struct UpdateUserSchema {
    pub first_name: String,
    pub last_name: String,
    pub email: String,
    pub password: String,
    pub role: UserRole,
}

/// Path parameter shape for single-record reads and deletes.
pub struct ParamOptions {
    pub id: i32,
}

/// Query parameter shape for listing records.
pub struct FilterOptions {
    pub page: Option<usize>,
    pub limit: Option<usize>,
}

/// The body of a login request: the transient credential.
pub struct LoginUserSchema {
    pub email: String,
    pub password: String,
}

/// ASCII case folding of one character, as a code point.
pub open spec fn lower_code(c: char) -> u32 {
    if 65 <= c as u32 <= 90 {
        (c as u32 + 32) as u32
    } else {
        c as u32
    }
}

/// Case-insensitive equality of two email texts: same length, same characters
/// up to ASCII case.
pub open spec fn email_eq(a: Seq<char>, b: Seq<char>) -> bool {
    a.len() == b.len() && forall|i: int|
        0 <= i < a.len() ==> lower_code(a[i]) == lower_code(#[trigger] b[i])
}

/// The folded code of one character.
fn lower_code_of(c: char) -> (r: u32)
    ensures
        r == lower_code(c),
{
    let u = c as u32;
    if 65 <= u && u <= 90 {
        u + 32
    } else {
        u
    }
}

/// Whether two email texts are the same up to ASCII case.
pub fn emails_equivalent(a: &str, b: &str) -> (r: bool)
    ensures
        r == email_eq(a@, b@),
{
    let la = a.unicode_len();
    let lb = b.unicode_len();
    if la != lb {
        return false;
    }
    let mut i: usize = 0;
    while i < la
        invariant
            la == a@.len() && la == b@.len(),
            i <= la,
            forall|j: int| 0 <= j < i ==> lower_code(a@[j]) == lower_code(#[trigger] b@[j]),
        decreases la - i,
    {
        let ca = a.get_char(i);
        let cb = b.get_char(i);
        if lower_code_of(ca) != lower_code_of(cb) {
            return false;
        }
        i = i + 1;
    }
    true
}

/// What a repository operation can report: an absent record, or a uniqueness
/// violation on email or id.
#[derive(Clone, Copy, PartialEq, Eq, Structural, Debug)]
pub enum RepoError {
    NotFound,
    DuplicateEmail,
    DuplicateId,
}

/// The repository invariant: pairwise distinct ids and pairwise distinct
/// emails (case-insensitively).
pub open spec fn repo_wf(v: Seq<UserView>) -> bool {
    forall|i: int, j: int|
        0 <= i < j < v.len() ==> (#[trigger] v[i]).id != (#[trigger] v[j]).id && !email_eq(
            v[i].email,
            v[j].email,
        )
}

/// The system of record for user records, keyed by id and unique by email.
pub struct UserRepository {
    users: Vec<User>,
}

impl View for UserRepository {
    type V = Seq<UserView>;

    closed spec fn view(&self) -> Seq<UserView> {
        self.users@.map_values(|u: User| u@)
    }
}

impl UserRepository {
    /// An empty repository; trivially well formed.
    pub fn new() -> (r: UserRepository)
        ensures
            r@ =~= Seq::<UserView>::empty(),
            repo_wf(r@),
    {
        let r = UserRepository { users: Vec::new() };
        proof {
            assert(r@ =~= Seq::<UserView>::empty());
        }
        r
    }

    /// How many records are stored.
    pub fn user_count(&self) -> (r: usize)
        ensures
            r == self@.len(),
    {
        self.users.len()
    }

    /// Look a record up by email, case-insensitively.
    pub fn find_by_email(&self, email: &str) -> (r: Option<&User>)
        ensures
            r matches Some(u) ==> (exists|i: int|
                0 <= i < self@.len() && #[trigger] self@[i] == u@) && email_eq(u@.email, email@),
            r is None ==> forall|i: int|
                0 <= i < self@.len() ==> !email_eq((#[trigger] self@[i]).email, email@),
    {
        let n = self.users.len();
        let mut i: usize = 0;
        while i < n
            invariant
                n == self@.len(),
                i <= n,
                self@ == self.users@.map_values(|u: User| u@),
                forall|j: int| 0 <= j < i ==> !email_eq((#[trigger] self@[j]).email, email@),
            decreases n - i,
        {
            if emails_equivalent(self.users[i].email.as_str(), email) {
                assert(self@[i as int] == self.users@[i as int]@);
                return Some(&self.users[i]);
            }
            assert(self@[i as int] == self.users@[i as int]@);
            i = i + 1;
        }
        None
    }

    /// Look a record up by id.
    pub fn find_by_id(&self, id: u128) -> (r: Option<&User>)
        ensures
            r matches Some(u) ==> (exists|i: int|
                0 <= i < self@.len() && #[trigger] self@[i] == u@) && u@.id == id,
            r is None ==> forall|i: int| 0 <= i < self@.len() ==> (#[trigger] self@[i]).id != id,
    {
        let n = self.users.len();
        let mut i: usize = 0;
        while i < n
            invariant
                n == self@.len(),
                i <= n,
                self@ == self.users@.map_values(|u: User| u@),
                forall|j: int| 0 <= j < i ==> (#[trigger] self@[j]).id != id,
            decreases n - i,
        {
            if self.users[i].id == id {
                assert(self@[i as int] == self.users@[i as int]@);
                return Some(&self.users[i]);
            }
            assert(self@[i as int] == self.users@[i as int]@);
            i = i + 1;
        }
        None
    }

    /// Insert a fresh record.
    ///
    /// Rejected without any change when the email is already registered
    /// (case-insensitively) — reported as a duplicate email regardless of any
    /// id collision — or, failing that, when the id is taken. On success the
    /// record is appended and nothing else changes.
    pub fn insert(&mut self, user: User) -> (r: Result<(), RepoError>)
        requires
            repo_wf(old(self)@),
        ensures
            repo_wf(final(self)@),
            r is Ok ==> final(self)@ == old(self)@.push(user@),
            r is Ok ==> forall|i: int|
                0 <= i < old(self)@.len() ==> !email_eq(
                    (#[trigger] old(self)@[i]).email,
                    user@.email,
                ) && old(self)@[i].id != user@.id,
            r is Err ==> final(self)@ == old(self)@,
            (exists|i: int|
                0 <= i < old(self)@.len() && email_eq(
                    (#[trigger] old(self)@[i]).email,
                    user@.email,
                )) <==> r == Err::<(), RepoError>(RepoError::DuplicateEmail),
            r == Err::<(), RepoError>(RepoError::DuplicateId) ==> exists|i: int|
                0 <= i < old(self)@.len() && (#[trigger] old(self)@[i]).id == user@.id,
            r is Err ==> (r == Err::<(), RepoError>(RepoError::DuplicateEmail) || r == Err::<
                (),
                RepoError,
            >(RepoError::DuplicateId)),
            (forall|i: int|
                0 <= i < old(self)@.len() ==> !email_eq(
                    (#[trigger] old(self)@[i]).email,
                    user@.email,
                ) && old(self)@[i].id != user@.id) ==> r is Ok,
    {
        if self.find_by_email(user.email.as_str()).is_some() {
            return Err(RepoError::DuplicateEmail);
        }
        if self.find_by_id(user.id).is_some() {
            return Err(RepoError::DuplicateId);
        }
        let ghost prior = self@;
        let ghost uv = user@;
        self.users.push(user);
        proof {
            assert(self@ =~= prior.push(uv));
            assert forall|i: int, j: int| 0 <= i < j < self@.len() implies (
            #[trigger] self@[i]).id != (#[trigger] self@[j]).id && !email_eq(
                self@[i].email,
                self@[j].email,
            ) by {
                if j < prior.len() {
                    assert(prior[i] == self@[i] && prior[j] == self@[j]);
                } else {
                    assert(self@[j] == uv);
                    assert(self@[i] == prior[i]);
                }
            }
        }
        Ok(())
    }

    /// Apply an update to the record with this id: the two names and the
    /// email are replaced, everything else (id, password hash, role,
    /// timestamps) is kept.
    ///
    /// Nothing changes when the id is absent, or when the new email would
    /// collide (case-insensitively) with a different record.
    pub fn update(&mut self, id: u128, fields: &UpdateUserSchema) -> (r: Result<(), RepoError>)
        requires
            repo_wf(old(self)@),
        ensures
            repo_wf(final(self)@),
            r is Err ==> final(self)@ == old(self)@,
            r == Err::<(), RepoError>(RepoError::NotFound) <==> forall|i: int|
                0 <= i < old(self)@.len() ==> (#[trigger] old(self)@[i]).id != id,
            r is Err ==> (r == Err::<(), RepoError>(RepoError::NotFound) || r == Err::<
                (),
                RepoError,
            >(RepoError::DuplicateEmail)),
            r == Err::<(), RepoError>(RepoError::DuplicateEmail) ==> exists|j: int|
                0 <= j < old(self)@.len() && email_eq(
                    (#[trigger] old(self)@[j]).email,
                    fields.email@,
                ) && old(self)@[j].id != id,
            (exists|i: int| 0 <= i < old(self)@.len() && (#[trigger] old(self)@[i]).id == id)
                && (forall|j: int|
                0 <= j < old(self)@.len() && (#[trigger] old(self)@[j]).id != id ==> !email_eq(
                    old(self)@[j].email,
                    fields.email@,
                )) ==> r is Ok,
            r is Ok ==> exists|i: int|
                0 <= i < old(self)@.len() && (#[trigger] old(self)@[i]).id == id && final(self)@
                    == old(self)@.update(
                    i,
                    UserView {
                        first_name: fields.first_name@,
                        last_name: fields.last_name@,
                        email: fields.email@,
                        ..old(self)@[i]
                    },
                ),
    {
        let n = self.users.len();
        let mut i: usize = 0;
        while i < n
            invariant
                repo_wf(old(self)@),
                self@ == old(self)@,
                n == self@.len(),
                i <= n,
                self@ == self.users@.map_values(|u: User| u@),
                forall|j: int| 0 <= j < i ==> (#[trigger] self@[j]).id != id,
            decreases n - i,
        {
            assert(self@[i as int] == self.users@[i as int]@);
            if self.users[i].id == id {
                // The new email must not collide with any other record.
                let mut j: usize = 0;
                while j < n
                    invariant
                        repo_wf(old(self)@),
                        self@ == old(self)@,
                        n == self@.len(),
                        j <= n,
                        i < n,
                        self@[i as int].id == id,
                        self@ == self.users@.map_values(|u: User| u@),
                        forall|k: int|
                            0 <= k < j && k != i ==> !email_eq(
                                (#[trigger] self@[k]).email,
                                fields.email@,
                            ),
                    decreases n - j,
                {
                    assert(self@[j as int] == self.users@[j as int]@);
                    if j != i && emails_equivalent(
                        self.users[j].email.as_str(),
                        fields.email.as_str(),
                    ) {
                        proof {
                            if j < i {
                                assert(self@[j as int].id != self@[i as int].id);
                            } else {
                                assert(self@[i as int].id != self@[j as int].id);
                            }
                        }
                        return Err(RepoError::DuplicateEmail);
                    }
                    j = j + 1;
                }
                let ghost prior = self@;
                let updated = User {
                    id: self.users[i].id,
                    first_name: fields.first_name.clone(),
                    last_name: fields.last_name.clone(),
                    email: fields.email.clone(),
                    password: self.users[i].password.clone(),
                    role: self.users[i].role,
                    created_at: self.users[i].created_at,
                    updated_at: self.users[i].updated_at,
                };
                let ghost uv = updated@;
                self.users[i] = updated;
                proof {
                    assert(self@ =~= prior.update(
                        i as int,
                        UserView {
                            first_name: fields.first_name@,
                            last_name: fields.last_name@,
                            email: fields.email@,
                            ..prior[i as int]
                        },
                    ));
                    assert forall|p: int, q: int| 0 <= p < q < self@.len() implies (
                    #[trigger] self@[p]).id != (#[trigger] self@[q]).id && !email_eq(
                        self@[p].email,
                        self@[q].email,
                    ) by {
                        assert(prior[p].id != prior[q].id && !email_eq(
                            prior[p].email,
                            prior[q].email,
                        ));
                        if p != i as int && q != i as int {
                            assert(self@[p] == prior[p] && self@[q] == prior[q]);
                        }
                    }
                }
                return Ok(());
            }
            i = i + 1;
        }
        Err(RepoError::NotFound)
    }

    /// Remove the record with this id; nothing changes when it is absent.
    pub fn delete(&mut self, id: u128) -> (r: Result<(), RepoError>)
        requires
            repo_wf(old(self)@),
        ensures
            repo_wf(final(self)@),
            r is Err ==> final(self)@ == old(self)@ && r == Err::<(), RepoError>(
                RepoError::NotFound,
            ),
            r == Err::<(), RepoError>(RepoError::NotFound) <==> forall|i: int|
                0 <= i < old(self)@.len() ==> (#[trigger] old(self)@[i]).id != id,
            r is Ok ==> exists|i: int|
                0 <= i < old(self)@.len() && (#[trigger] old(self)@[i]).id == id && final(self)@
                    == old(self)@.remove(i),
    {
        let n = self.users.len();
        let mut i: usize = 0;
        while i < n
            invariant
                repo_wf(old(self)@),
                self@ == old(self)@,
                n == self@.len(),
                i <= n,
                self@ == self.users@.map_values(|u: User| u@),
                forall|j: int| 0 <= j < i ==> (#[trigger] self@[j]).id != id,
            decreases n - i,
        {
            assert(self@[i as int] == self.users@[i as int]@);
            if self.users[i].id == id {
                let ghost prior = self@;
                self.users.remove(i);
                proof {
                    assert(self@ =~= prior.remove(i as int));
                    assert forall|p: int, q: int| 0 <= p < q < self@.len() implies (
                    #[trigger] self@[p]).id != (#[trigger] self@[q]).id && !email_eq(
                        self@[p].email,
                        self@[q].email,
                    ) by {
                        let p0 = if p < i as int {
                            p
                        } else {
                            p + 1
                        };
                        let q0 = if q < i as int {
                            q
                        } else {
                            q + 1
                        };
                        assert(self@[p] == prior[p0] && self@[q] == prior[q0]);
                        assert(prior[p0].id != prior[q0].id && !email_eq(
                            prior[p0].email,
                            prior[q0].email,
                        ));
                    }
                }
                return Ok(());
            }
            i = i + 1;
        }
        Err(RepoError::NotFound)
    }

    /// Every stored record in response shape, in storage order.
    pub fn all_responses(&self) -> (r: Vec<UserResponse>)
        ensures
            r@.len() == self@.len(),
            forall|i: int|
                0 <= i < self@.len() ==> {
                    let u = #[trigger] self@[i];
                    &&& r@[i].id == u.id
                    &&& r@[i].first_name@ == u.first_name
                    &&& r@[i].last_name@ == u.last_name
                    &&& r@[i].email@ == u.email
                    &&& r@[i].role == u.role
                    &&& r@[i].created_at == u.created_at
                    &&& r@[i].updated_at == u.updated_at
                },
    {
        let n = self.users.len();
        let mut out: Vec<UserResponse> = Vec::new();
        let mut i: usize = 0;
        while i < n
            invariant
                n == self@.len(),
                i <= n,
                out@.len() == i,
                self@ == self.users@.map_values(|u: User| u@),
                forall|j: int|
                    0 <= j < i ==> {
                        let u = #[trigger] self@[j];
                        &&& out@[j].id == u.id
                        &&& out@[j].first_name@ == u.first_name
                        &&& out@[j].last_name@ == u.last_name
                        &&& out@[j].email@ == u.email
                        &&& out@[j].role == u.role
                        &&& out@[j].created_at == u.created_at
                        &&& out@[j].updated_at == u.updated_at
                    },
            decreases n - i,
        {
            assert(self@[i as int] == self.users@[i as int]@);
            out.push(map_user_to_response(&self.users[i]));
            i = i + 1;
        }
        out
    }
}

} // verus!
