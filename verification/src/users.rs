//! The user directory: account records and the lookups the authentication
//! subsystem needs. The directory is a collaborator of the auth subsystem —
//! it owns the accounts — and is modeled here as a uniquely keyed table with
//! `find`, `find_by_email` and `insert`, plus the one mutation the subsystem
//! performs: replacing a credential at password-change time.

use vstd::prelude::*;

use crate::errors::AuthError;
use crate::ids::fresh_uuid;

verus! {

/// One account record. The credential (`password_hash`, `password_salt`) is
/// optional: accounts linked through an OAuth provider may have neither.
#[derive(Clone, Debug)]
pub struct User {
    pub id: String,
    pub username: String,
    pub email: String,
    pub password_hash: Option<String>,
    pub password_salt: Option<Vec<u8>>,
    pub avatar: Option<String>,
    pub provider: String,
    pub role: String,
    pub verified: bool,
    pub created_at: i64,
    pub updated_at: i64,
}

/// The mathematical image of an account record.
#[verifier::ext_equal]
pub ghost struct UserView {
    pub id: Seq<char>,
    pub username: Seq<char>,
    pub email: Seq<char>,
    pub password_hash: Option<Seq<char>>,
    pub password_salt: Option<Seq<u8>>,
    pub avatar: Option<Seq<char>>,
    pub provider: Seq<char>,
    pub role: Seq<char>,
    pub verified: bool,
    pub created_at: i64,
    pub updated_at: i64,
}

impl View for User {
    type V = UserView;

    open spec fn view(&self) -> UserView {
        UserView {
            id: self.id@,
            username: self.username@,
            email: self.email@,
            password_hash: match self.password_hash {
                Some(h) => Some(h@),
                None => None,
            },
            password_salt: match self.password_salt {
                Some(s) => Some(s@),
                None => None,
            },
            avatar: match self.avatar {
                Some(a) => Some(a@),
                None => None,
            },
            provider: self.provider@,
            role: self.role@,
            verified: self.verified,
            created_at: self.created_at,
            updated_at: self.updated_at,
        }
    }
}

/// The details a new local account is created from.
#[derive(Clone, Debug)]
pub struct NewUser {
    pub username: String,
    pub email: String,
    pub password_hash: Option<String>,
    pub password_salt: Option<Vec<u8>>,
    pub avatar: Option<String>,
    pub provider: String,
}

/// The identity a session cookie carries: just the account id.
#[derive(Clone, Debug)]
pub struct LoggedUser {
    pub id: String,
}

impl From<User> for LoggedUser {
    fn from(value: User) -> (r: LoggedUser) {
        LoggedUser { id: value.id }
    }
}

impl vstd::std_specs::convert::FromSpecImpl<User> for LoggedUser {
    open spec fn obeys_from_spec() -> bool {
        true
    }

    open spec fn from_spec(value: User) -> LoggedUser {
        LoggedUser { id: value.id }
    }
}

/// The shape of an account as it is reported to clients: the credential —
/// hash and salt — and the internal bookkeeping fields are stripped.
#[derive(Clone, Debug)]
pub struct EncodableUser {
    pub id: String,
    pub username: String,
    pub email: String,
    pub avatar: Option<String>,
}

impl From<User> for EncodableUser {
    fn from(value: User) -> (r: EncodableUser) {
        EncodableUser {
            id: value.id,
            username: value.username,
            email: value.email,
            avatar: value.avatar,
        }
    }
}

impl vstd::std_specs::convert::FromSpecImpl<User> for EncodableUser {
    open spec fn obeys_from_spec() -> bool {
        true
    }

    open spec fn from_spec(value: User) -> EncodableUser {
        EncodableUser {
            id: value.id,
            username: value.username,
            email: value.email,
            avatar: value.avatar,
        }
    }
}

/// Whether some account in `s` has this id.
pub open spec fn has_user_id(s: Seq<UserView>, id: Seq<char>) -> bool {
    exists|i: int| 0 <= i < s.len() && #[trigger] s[i].id == id
}

/// The index of the account with this id; meaningful when `has_user_id`
/// holds, unique under the directory's well-formedness.
pub open spec fn index_of_user_id(s: Seq<UserView>, id: Seq<char>) -> int {
    choose|i: int| 0 <= i < s.len() && #[trigger] s[i].id == id
}

/// Whether some account in `s` has this email address.
pub open spec fn has_email(s: Seq<UserView>, email: Seq<char>) -> bool {
    exists|i: int| 0 <= i < s.len() && #[trigger] s[i].email == email
}

/// The index of the account with this email; meaningful when `has_email`
/// holds, unique under the directory's well-formedness.
pub open spec fn index_of_email(s: Seq<UserView>, email: Seq<char>) -> int {
    choose|i: int| 0 <= i < s.len() && #[trigger] s[i].email == email
}

/// The accounts, keyed uniquely by id and by email.
#[derive(Debug)]
pub struct UserDirectory {
    users: Vec<User>,
}

impl View for UserDirectory {
    type V = Seq<UserView>;

    closed spec fn view(&self) -> Seq<UserView> {
        self.users@.map_values(|u: User| u@)
    }
}

impl UserDirectory {
    /// Key uniqueness: no two accounts share an id or an email address.
    pub open spec fn wf(&self) -> bool {
        forall|i: int, j: int|
            0 <= i < j < self@.len() ==> (#[trigger] self@[i]).id != (#[trigger] self@[j]).id
                && self@[i].email != self@[j].email
    }

    pub fn new() -> (r: Self)
        ensures
            r.wf(),
            r@ =~= Seq::<UserView>::empty(),
    {
        let r = UserDirectory { users: Vec::new() };
        proof {
            assert(r.users@.map_values(|u: User| u@) =~= Seq::<UserView>::empty());
        }
        r
    }

    /// A field-for-field copy of the account at position `i`.
    fn user_at(&self, i: usize) -> (r: User)
        requires
            i < self@.len(),
        ensures
            r@ == self@[i as int],
    {
        let u = &self.users[i];
        let copy = User {
            id: u.id.clone(),
            username: u.username.clone(),
            email: u.email.clone(),
            password_hash: match &u.password_hash {
                Some(h) => Some(h.clone()),
                None => None,
            },
            password_salt: match &u.password_salt {
                Some(s) => Some(s.clone()),
                None => None,
            },
            avatar: match &u.avatar {
                Some(a) => Some(a.clone()),
                None => None,
            },
            provider: u.provider.clone(),
            role: u.role.clone(),
            verified: u.verified,
            created_at: u.created_at,
            updated_at: u.updated_at,
        };
        proof {
            assert(self@[i as int] == self.users@[i as int]@);
        }
        copy
    }

    /// Position of the account with this id, if any.
    fn position_of_id(&self, id: &String) -> (r: Option<usize>)
        requires
            self.wf(),
        ensures
            (match r {
                Some(i) => i < self@.len() && self@[i as int].id == id@ && i == index_of_user_id(
                    self@,
                    id@,
                ),
                None => !has_user_id(self@, id@),
            }),
    {
        let n = self.users.len();
        let mut i: usize = 0;
        while i < n
            invariant
                self.wf(),
                n == self.users@.len(),
                i <= n,
                self@.len() == n,
                forall|j: int| 0 <= j < i ==> #[trigger] self@[j].id != id@,
            decreases n - i,
        {
            proof {
                assert(self@[i as int] == self.users@[i as int]@);
            }
            if self.users[i].id == *id {
                proof {
                    assert(self@[i as int].id == id@);
                    assert(has_user_id(self@, id@));
                    let k = index_of_user_id(self@, id@);
                    assert(0 <= k < self@.len() && self@[k].id == id@);
                    assert(k == i as int) by {
                        if k < i as int {
                            assert(self@[k].id != id@);
                        }
                        if (i as int) < k {
                            assert(self@[i as int].id != self@[k].id);
                        }
                    }
                }
                return Some(i);
            }
            i += 1;
        }
        None
    }

    /// Position of the account with this email, if any.
    fn position_of_email(&self, email: &String) -> (r: Option<usize>)
        requires
            self.wf(),
        ensures
            (match r {
                Some(i) => i < self@.len() && self@[i as int].email == email@ && i
                    == index_of_email(self@, email@),
                None => !has_email(self@, email@),
            }),
    {
        let n = self.users.len();
        let mut i: usize = 0;
        while i < n
            invariant
                self.wf(),
                n == self.users@.len(),
                i <= n,
                self@.len() == n,
                forall|j: int| 0 <= j < i ==> #[trigger] self@[j].email != email@,
            decreases n - i,
        {
            proof {
                assert(self@[i as int] == self.users@[i as int]@);
            }
            if self.users[i].email == *email {
                proof {
                    assert(self@[i as int].email == email@);
                    assert(has_email(self@, email@));
                    let k = index_of_email(self@, email@);
                    assert(0 <= k < self@.len() && self@[k].email == email@);
                    assert(k == i as int) by {
                        if k < i as int {
                            assert(self@[k].email != email@);
                        }
                        if (i as int) < k {
                            assert(self@[i as int].email != self@[k].email);
                        }
                    }
                }
                return Some(i);
            }
            i += 1;
        }
        None
    }

    /// Look an account up by id: `Some` exactly when one exists, and then
    /// the returned record is that account.
    pub fn find(&self, id: &String) -> (r: Option<User>)
        requires
            self.wf(),
        ensures
            (match r {
                Some(u) => has_user_id(self@, id@) && u@ == self@[index_of_user_id(self@, id@)],
                None => !has_user_id(self@, id@),
            }),
    {
        match self.position_of_id(id) {
            Some(i) => Some(self.user_at(i)),
            None => None,
        }
    }

    /// Look an account up by email: `Some` exactly when one exists, and then
    /// the returned record is that account.
    pub fn find_by_email(&self, email: &String) -> (r: Option<User>)
        requires
            self.wf(),
        ensures
            (match r {
                Some(u) => has_email(self@, email@) && u@ == self@[index_of_email(self@, email@)],
                None => !has_email(self@, email@),
            }),
    {
        match self.position_of_email(email) {
            Some(i) => Some(self.user_at(i)),
            None => None,
        }
    }

    /// Create an account from the given details under a fresh id: not yet
    /// verified, with the member role, created and updated at `now`. Fails
    /// with nothing changed when the email is already taken — the directory
    /// is uniquely keyed — or, with a fresh id that collides, when the id
    /// is.
    pub fn insert(&mut self, new_user: NewUser, now: i64) -> (r: Result<User, AuthError>)
        requires
            old(self).wf(),
        ensures
            final(self).wf(),
            has_email(old(self)@, new_user.email@) ==> r is Err,
            r matches Err(e) ==> e == AuthError::StorageUnavailable && final(self)@ == old(self)@,
            r matches Ok(u) ==> !has_email(old(self)@, new_user.email@) && !has_user_id(
                old(self)@,
                u@.id,
            ) && final(self)@ =~= old(self)@.push(u@) && u@.username == new_user.username@
                && u@.email == new_user.email@ && u@.password_hash == (match new_user
                .password_hash {
                Some(h) => Some(h@),
                None => None,
            }) && u@.password_salt == (match new_user.password_salt {
                Some(s) => Some(s@),
                None => None,
            }) && u@.provider == new_user.provider@ && u@.role == "user"@ && u@.verified == false
                && u@.created_at == now && u@.updated_at == now,
    {
        let id = fresh_uuid();
        if let Some(_) = self.position_of_email(&new_user.email) {
            return Err(AuthError::StorageUnavailable);
        }
        if let Some(_) = self.position_of_id(&id) {
            return Err(AuthError::StorageUnavailable);
        }
        let user = User {
            id,
            username: new_user.username,
            email: new_user.email,
            password_hash: new_user.password_hash,
            password_salt: new_user.password_salt,
            avatar: new_user.avatar,
            provider: new_user.provider,
            role: String::from_str("user"),
            verified: false,
            created_at: now,
            updated_at: now,
        };
        let result = self.user_copy_for_result(&user);
        let ghost pre_view = self@;
        proof {
            assert(forall|k: int| 0 <= k < self.users@.len() ==> self@[k] == #[trigger] self
                .users@[k]@);
        }
        self.users.push(user);
        proof {
            assert(self@ =~= pre_view.push(self.users@.last()@));
        }
        Ok(result)
    }

    /// A field-for-field copy of a not-yet-inserted account record.
    fn user_copy_for_result(&self, u: &User) -> (r: User)
        ensures
            r@ == u@,
    {
        User {
            id: u.id.clone(),
            username: u.username.clone(),
            email: u.email.clone(),
            password_hash: match &u.password_hash {
                Some(h) => Some(h.clone()),
                None => None,
            },
            password_salt: match &u.password_salt {
                Some(s) => Some(s.clone()),
                None => None,
            },
            avatar: match &u.avatar {
                Some(a) => Some(a.clone()),
                None => None,
            },
            provider: u.provider.clone(),
            role: u.role.clone(),
            verified: u.verified,
            created_at: u.created_at,
            updated_at: u.updated_at,
        }
    }

    /// Replace the credential of the account with this id: new hash, new
    /// salt, `updated_at` set to `now`, everything else untouched. `Ok`
    /// exactly when the account exists.
    pub fn update_password(
        &mut self,
        id: &String,
        new_hash: String,
        new_salt: Vec<u8>,
        now: i64,
    ) -> (r: Result<(), AuthError>)
        requires
            old(self).wf(),
        ensures
            final(self).wf(),
            !has_user_id(old(self)@, id@) ==> r is Err && final(self)@ == old(self)@,
            r matches Err(e) ==> e == AuthError::StorageUnavailable && final(self)@ == old(self)@
                && !has_user_id(old(self)@, id@),
            r matches Ok(u) ==> has_user_id(old(self)@, id@) && final(self)@ =~= old(self)@.update(
                index_of_user_id(old(self)@, id@),
                (UserView {
                    password_hash: Some(new_hash@),
                    password_salt: Some(new_salt@),
                    updated_at: now,
                    ..old(self)@[index_of_user_id(old(self)@, id@)]
                }),
            ),
    {
        let ghost pre_view = self@;
        match self.position_of_id(id) {
            None => Err(AuthError::StorageUnavailable),
            Some(i) => {
                proof {
                    assert(forall|k: int| 0 <= k < self.users@.len() ==> self@[k] == #[trigger] self
                        .users@[k]@);
                }
                self.users[i].password_hash = Some(new_hash);
                self.users[i].password_salt = Some(new_salt);
                self.users[i].updated_at = now;
                proof {
                    assert(self@ =~= pre_view.update(
                        i as int,
                        (UserView {
                            password_hash: self.users@[i as int]@.password_hash,
                            password_salt: self.users@[i as int]@.password_salt,
                            updated_at: now,
                            ..pre_view[i as int]
                        }),
                    ));
                }
                Ok(())
            },
        }
    }
}

} // verus!
