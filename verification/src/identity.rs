//! The identity store: user records, keyed by id, with unique usernames.

use vstd::prelude::*;

use crate::errors::ApiError;
use crate::fresh::fresh_id;
use crate::models::User;

verus! {

/// True when some user in `s` carries this username.
pub open spec fn has_username(s: Seq<User>, name: Seq<char>) -> bool {
    exists|i: int| 0 <= i < s.len() && s[i].username@ == name
}

/// True when some user in `s` carries this id.
pub open spec fn has_user_id(s: Seq<User>, id: u128) -> bool {
    exists|i: int| 0 <= i < s.len() && s[i].id == id
}

/// True when some user in `s` matches both fields exactly.
pub open spec fn credentials_match(s: Seq<User>, name: Seq<char>, password: Seq<char>) -> bool {
    exists|i: int|
        0 <= i < s.len() && s[i].username@ == name && s[i].hashed_password@ == password
}

/// All registered users. Writers go through `register`, which keeps
/// ids and usernames unique.
pub struct IdentityStore {
    users: Vec<User>,
}

impl View for IdentityStore {
    type V = Seq<User>;

    closed spec fn view(&self) -> Seq<User> {
        self.users@
    }
}

impl IdentityStore {
    /// No two users share an id, and no two share a username.
    pub open spec fn wf(self) -> bool {
        forall|i: int, j: int|
            0 <= i < j < self@.len() ==> (#[trigger] self@[i]).id != (#[trigger] self@[j]).id
                && self@[i].username@ != self@[j].username@
    }

    pub fn new() -> (s: Self)
        ensures
            s@ == Seq::<User>::empty(),
            s.wf(),
    {
        IdentityStore { users: Vec::new() }
    }

    /// Pure lookup: is this id registered?
    pub fn user_exists(&self, id: u128) -> (found: bool)
        ensures
            found == has_user_id(self@, id),
    {
        let mut i: usize = 0;
        while i < self.users.len()
            invariant
                i <= self@.len(),
                forall|k: int| 0 <= k < i ==> (#[trigger] self@[k]).id != id,
            decreases self@.len() - i,
        {
            if self.users[i].id == id {
                return true;
            }
            i += 1;
        }
        false
    }

    /// Pure lookup: is this username taken?
    pub fn username_taken(&self, name: &String) -> (found: bool)
        ensures
            found == has_username(self@, name@),
    {
        let mut i: usize = 0;
        while i < self.users.len()
            invariant
                i <= self@.len(),
                forall|k: int| 0 <= k < i ==> (#[trigger] self@[k]).username@ != name@,
            decreases self@.len() - i,
        {
            if self.users[i].username == *name {
                return true;
            }
            i += 1;
        }
        false
    }

    /// The registration step once an id has been drawn: rejects a taken
    /// username with `BadRequest`, rejects a colliding id with
    /// `Internal` (a fresh random id never collides in practice), and
    /// otherwise records the user.
    pub fn register_with_id(&mut self, id: u128, username: String, password: String) -> (r:
        Result<u128, ApiError>)
        requires
            old(self).wf(),
        ensures
            final(self).wf(),
            r is Err ==> final(self)@ == old(self)@,
            has_username(old(self)@, username@) <==> (r is Err && r->Err_0 is BadRequest),
            (r is Err && r->Err_0 is BadRequest) ==> r->Err_0->BadRequest_0@
                == "username already taken"@,
            !has_username(old(self)@, username@) && has_user_id(old(self)@, id) ==> r == Err::<
                u128,
                ApiError,
            >(ApiError::Internal),
            !has_username(old(self)@, username@) && !has_user_id(old(self)@, id) ==> r == Ok::<
                u128,
                ApiError,
            >(id) && final(self)@ == old(self)@.push(
                (User { id, username, hashed_password: password }),
            ),
    {
        if self.username_taken(&username) {
            proof {
                reveal_strlit("username already taken");
            }
            return Err(ApiError::BadRequest("username already taken".to_owned()));
        }
        if self.user_exists(id) {
            return Err(ApiError::Internal);
        }
        let ghost s0 = self.users@;
        self.users.push(User { id, username, hashed_password: password });
        proof {
            assert forall|i: int, j: int| 0 <= i < j < self@.len() implies (#[trigger] self@[i]).id
                != (#[trigger] self@[j]).id && self@[i].username@ != self@[j].username@ by {
                if j == s0.len() {
                    assert(!has_user_id(s0, id));
                    assert(!has_username(s0, username@));
                }
            }
        }
        Ok(id)
    }

    /// Registers a user under a freshly drawn id. Fails with
    /// `BadRequest` exactly when the username is already taken, and
    /// with `Internal` only in the (practically impossible) case that
    /// the drawn id collides with an existing one.
    pub fn register(&mut self, username: String, password: String) -> (r: Result<u128, ApiError>)
        requires
            old(self).wf(),
        ensures
            final(self).wf(),
            r is Err ==> final(self)@ == old(self)@,
            has_username(old(self)@, username@) <==> (r is Err && r->Err_0 is BadRequest),
            (r is Err && r->Err_0 is BadRequest) ==> r->Err_0->BadRequest_0@
                == "username already taken"@,
            r is Err ==> (r->Err_0 is BadRequest || r->Err_0 is Internal),
            r matches Ok(id) ==> !has_username(old(self)@, username@) && !has_user_id(
                old(self)@,
                id,
            ) && final(self)@ == old(self)@.push(
                (User { id, username, hashed_password: password }),
            ),
    {
        let id = fresh_id();
        self.register_with_id(id, username, password)
    }

    /// Returns the id of the user matching both fields exactly, and
    /// `Unauthorized` when none does.
    pub fn authenticate(&self, username: &String, password: &String) -> (r: Result<u128, ApiError>)
        ensures
            r is Ok <==> credentials_match(self@, username@, password@),
            r is Err ==> r == Err::<u128, ApiError>(ApiError::Unauthorized),
            r matches Ok(uid) ==> exists|i: int|
                0 <= i < self@.len() && (#[trigger] self@[i]).username@ == username@
                    && self@[i].hashed_password@ == password@ && self@[i].id == uid,
            self.wf() && r is Ok ==> forall|i: int|
                0 <= i < self@.len() && (#[trigger] self@[i]).username@ == username@
                    && self@[i].hashed_password@ == password@ ==> self@[i].id == r->Ok_0,
    {
        let mut i: usize = 0;
        while i < self.users.len()
            invariant
                i <= self@.len(),
                forall|k: int|
                    0 <= k < i ==> !((#[trigger] self@[k]).username@ == username@
                        && self@[k].hashed_password@ == password@),
            decreases self@.len() - i,
        {
            if self.users[i].username == *username && self.users[i].hashed_password == *password {
                return Ok(self.users[i].id);
            }
            i += 1;
        }
        Err(ApiError::Unauthorized)
    }
}

/// The id a well-formed textual UUID denotes, if any; what counts as
/// well-formed is the parser's affair.
pub uninterp spec fn parsed_uuid(s: Seq<char>) -> Option<u128>;

/// Relies on `uuid::Uuid::parse_str`: whether a string is a
/// well-formed UUID, and which value it denotes, depend on its
/// characters alone.
#[verifier::external_body]
fn parse_uuid(s: &str) -> (r: Option<u128>)
    ensures
        r == parsed_uuid(s@),
{
    uuid::Uuid::parse_str(s).ok().map(|u| u.as_u128())
}

/// Resolves the caller-supplied identity header value: an absent or
/// malformed value is `Unauthorized`, before any store is touched.
pub fn extract_user_id(value: Option<&str>) -> (r: Result<u128, ApiError>)
    ensures
        value is None ==> r == Err::<u128, ApiError>(ApiError::Unauthorized),
        value matches Some(s) ==> r == match parsed_uuid(s@) {
            Some(id) => Ok::<u128, ApiError>(id),
            None => Err::<u128, ApiError>(ApiError::Unauthorized),
        },
{
    match value {
        None => Err(ApiError::Unauthorized),
        Some(s) => match parse_uuid(s) {
            Some(id) => Ok(id),
            None => Err(ApiError::Unauthorized),
        },
    }
}

/// Law: in a well-formed store no two users carry the same username,
/// whatever sequence of registrations produced it.
pub proof fn lemma_usernames_unique(s: IdentityStore, i: int, j: int)
    requires
        s.wf(),
        0 <= i < s@.len(),
        0 <= j < s@.len(),
        i != j,
    ensures
        s@[i].username@ != s@[j].username@,
{
}

} // verus!
