//! User management over the credential store: lookup, listing, creation,
//! update, deletion and password changes.

use vstd::prelude::*;

use crate::auth::{log_appended, session_after_invalidate, spec_opt_str, AuthService};
use crate::config::AppConfig;
use crate::crypto;
use crate::store::{AuditAction, CredentialStore, DbUser};

verus! {

/// A typed status for rejected user operations.
#[derive(Clone, Copy, Debug, PartialEq, Eq, Structural)]
pub enum GenericError {
    Generic,
    BadRequest,
    Forbidden,
    NotFound,
    Conflict,
    InternalServerError,
}

impl GenericError {
    /// The HTTP status code the error maps to (0 for the generic error).
    pub fn code(&self) -> (r: u16)
        ensures
            r == match *self {
                GenericError::Generic => 0u16,
                GenericError::BadRequest => 400u16,
                GenericError::Forbidden => 403u16,
                GenericError::NotFound => 404u16,
                GenericError::Conflict => 409u16,
                GenericError::InternalServerError => 500u16,
            },
    {
        match *self {
            GenericError::Generic => 0,
            GenericError::BadRequest => 400,
            GenericError::Forbidden => 403,
            GenericError::NotFound => 404,
            GenericError::Conflict => 409,
            GenericError::InternalServerError => 500,
        }
    }
}

/// A user as presented to and accepted from callers: the stored hash never
/// leaves the store, and a new plaintext password may come in.
#[derive(Debug, PartialEq, Eq)]
pub struct User {
    pub id: Option<u128>,
    pub username: String,
    pub new_password: Option<String>,
    pub description: String,
    pub enabled: bool,
    pub permissions: i64,
}

/// The presentation of a stored user row.
pub open spec fn spec_from_db_user(u: DbUser) -> User {
    User {
        id: Some(u.id),
        username: u.username,
        new_password: None,
        description: u.description,
        enabled: u.enabled,
        permissions: u.permissions,
    }
}

/// The plaintext a new user row is hashed from: the given password, or
/// empty when none was given.
pub open spec fn spec_new_password(u: User) -> Seq<char> {
    match u.new_password {
        Some(p) => p@,
        None => Seq::empty(),
    }
}

impl User {
    pub fn from_db_user(user: &DbUser) -> (r: Self)
        ensures
            r == spec_from_db_user(*user),
    {
        User {
            id: Some(user.id),
            username: user.username.clone(),
            new_password: None,
            description: user.description.clone(),
            enabled: user.enabled,
            permissions: user.permissions,
        }
    }
}

/// The user service.
pub struct UsersService {
    pub session_max_age: u64,
}

impl UsersService {
    pub fn new(config: &AppConfig) -> (r: Self)
        ensures
            r.session_max_age == config.session_max_age,
    {
        UsersService { session_max_age: config.session_max_age }
    }

    /// The stored user row with this id, if any.
    pub fn get_user_by_id(&self, db: &CredentialStore, id: u128) -> (r: Option<DbUser>)
        requires
            db.wf(),
        ensures
            r == if db.has_user_id(id) {
                Some(db.user_by_id(id))
            } else {
                None::<DbUser>
            },
    {
        match db.find_user_by_id(id) {
            None => None,
            Some(i) => Some(db.users[i].clone()),
        }
    }

    /// The stored user row with this username, if any.
    pub fn get_user_by_name(&self, db: &CredentialStore, username: &str) -> (r: Option<DbUser>)
        requires
            db.wf(),
        ensures
            r == if db.has_username(username@) {
                Some(db.user_by_name(username@))
            } else {
                None::<DbUser>
            },
    {
        let username_string = username.to_owned();
        match db.find_user_by_name(&username_string) {
            None => None,
            Some(i) => Some(db.users[i].clone()),
        }
    }

    /// The user with this id in presentation form, if any.
    pub fn get(&self, db: &CredentialStore, id: u128) -> (r: Option<User>)
        requires
            db.wf(),
        ensures
            r == if db.has_user_id(id) {
                Some(spec_from_db_user(db.user_by_id(id)))
            } else {
                None::<User>
            },
    {
        match self.get_user_by_id(db, id) {
            None => None,
            Some(user) => Some(User::from_db_user(&user)),
        }
    }

    /// All users in presentation form, in storage order.
    pub fn list(&self, db: &CredentialStore) -> (r: Vec<User>)
        requires
            db.wf(),
        ensures
            r@.len() == db.users@.len(),
            forall|i: int| 0 <= i < r@.len() ==> r@[i] == spec_from_db_user(db.users@[i]),
    {
        let mut out: Vec<User> = Vec::new();
        let n = db.users.len();
        let mut k: usize = 0;
        while k < n
            invariant
                n == db.users@.len(),
                k <= n,
                out@.len() == k,
                forall|i: int| 0 <= i < k ==> out@[i] == spec_from_db_user(db.users@[i]),
            decreases n - k,
        {
            out.push(User::from_db_user(&db.users[k]));
            k += 1;
        }
        out
    }

    /// Creates a user under the given id, hashing the given (or empty)
    /// password. Rejected exactly when the username or the id is taken;
    /// an existing row is never overwritten.
    pub fn create_with_id(&self, db: &mut CredentialStore, user: &User, id: u128) -> (r: Result<
        u128,
        GenericError,
    >)
        requires
            old(db).wf(),
            spec_new_password(*user).len() < 0x4000_0000,
        ensures
            final(db).wf(),
            final(db).sessions@ == old(db).sessions@,
            final(db).log@ == old(db).log@,
            match r {
                Ok(new_id) => {
                    &&& new_id == id
                    &&& !old(db).has_username(user.username@)
                    &&& !old(db).has_user_id(id)
                    &&& final(db).users@.len() == old(db).users@.len() + 1
                    &&& final(db).users@.drop_last() == old(db).users@
                    &&& ({
                        let u = final(db).users@.last();
                        &&& u.id == id
                        &&& u.username@ == user.username@
                        &&& u.description@ == user.description@
                        &&& u.enabled == user.enabled
                        &&& u.permissions == user.permissions
                        &&& crypto::password_matches(spec_new_password(*user), u.password@)
                    })
                    &&& final(db).has_user_id(id)
                    &&& final(db).user_by_id(id) == final(db).users@.last()
                    &&& final(db).has_username(user.username@)
                    &&& final(db).user_by_name(user.username@) == final(db).users@.last()
                },
                Err(e) => {
                    &&& e == GenericError::BadRequest
                    &&& old(db).has_username(user.username@) || old(db).has_user_id(id)
                    &&& final(db).users@ == old(db).users@
                },
            },
    {
        if db.find_user_by_name(&user.username).is_some() {
            return Err(GenericError::BadRequest);
        }
        if db.find_user_by_id(id).is_some() {
            return Err(GenericError::BadRequest);
        }

        let password_hash = match &user.new_password {
            Some(p) => crypto::hash_password(p.as_str()),
            None => {
                proof {
                    reveal_strlit("");
                    assert(""@ =~= Seq::<char>::empty());
                }
                crypto::hash_password("")
            },
        };

        let ghost n = db.users@.len() as int;
        db.users.push(
            DbUser {
                id,
                username: user.username.clone(),
                password: password_hash,
                description: user.description.clone(),
                enabled: user.enabled,
                permissions: user.permissions,
            },
        );
        proof {
            assert forall|a: int, b: int|
                0 <= a < b < db.users@.len() implies db.users@[a].id != db.users@[b].id by {
                assert(db.users@[a] == old(db).users@[a]);
                if b < n {
                    assert(db.users@[b] == old(db).users@[b]);
                }
            }
            assert forall|a: int, b: int|
                0 <= a < b < db.users@.len() implies db.users@[a].username@
                != db.users@[b].username@ by {
                assert(db.users@[a] == old(db).users@[a]);
                if b < n {
                    assert(db.users@[b] == old(db).users@[b]);
                }
            }
            assert(db.users@.drop_last() =~= old(db).users@);
            db.lemma_user_id_unique(id, n);
            db.lemma_username_unique(user.username@, n);
        }
        Ok(id)
    }

    /// Creates a user under a freshly drawn random id. Always rejected when
    /// the username is taken; success depends on the drawn id being unused,
    /// which `create_with_id` decides exactly.
    pub fn create(&self, db: &mut CredentialStore, user: &User) -> (r: Result<u128, GenericError>)
        requires
            old(db).wf(),
            spec_new_password(*user).len() < 0x4000_0000,
        ensures
            final(db).wf(),
            final(db).sessions@ == old(db).sessions@,
            final(db).log@ == old(db).log@,
            old(db).has_username(user.username@) ==> r is Err,
            match r {
                Ok(id) => {
                    &&& !old(db).has_username(user.username@)
                    &&& !old(db).has_user_id(id)
                    &&& final(db).users@.len() == old(db).users@.len() + 1
                    &&& final(db).users@.drop_last() == old(db).users@
                    &&& ({
                        let u = final(db).users@.last();
                        &&& u.id == id
                        &&& u.username@ == user.username@
                        &&& u.description@ == user.description@
                        &&& u.enabled == user.enabled
                        &&& u.permissions == user.permissions
                        &&& crypto::password_matches(spec_new_password(*user), u.password@)
                    })
                    &&& final(db).has_user_id(id)
                    &&& final(db).user_by_id(id) == final(db).users@.last()
                    &&& final(db).has_username(user.username@)
                    &&& final(db).user_by_name(user.username@) == final(db).users@.last()
                },
                Err(e) => {
                    &&& e == GenericError::BadRequest
                    &&& final(db).users@ == old(db).users@
                },
            },
    {
        let id = crypto::generate_id();
        self.create_with_id(db, user, id)
    }

    /// Updates the user addressed by `user.id`: username, description,
    /// enabled flag and permissions are replaced; the password is re-hashed
    /// when a new one is given, else kept. Rejected without an id, when the
    /// user does not exist, or when the username belongs to another user.
    pub fn update(&self, db: &mut CredentialStore, user: &User) -> (r: Result<u128, GenericError>)
        requires
            old(db).wf(),
            user.new_password matches Some(p) ==> p@.len() < 0x4000_0000,
        ensures
            final(db).wf(),
            final(db).sessions@ == old(db).sessions@,
            final(db).log@ == old(db).log@,
            final(db).users@.len() == old(db).users@.len(),
            match r {
                Ok(id) => {
                    &&& user.id == Some(id)
                    &&& old(db).has_user_id(id)
                    &&& forall|j: int|
                        0 <= j < old(db).users@.len() && j != old(db).user_ix_by_id(id)
                            ==> final(db).users@[j] == old(db).users@[j] && old(
                            db,
                        ).users@[j].username@ != user.username@
                    &&& ({
                        let u = final(db).users@[old(db).user_ix_by_id(id)];
                        &&& u.id == id
                        &&& u.username@ == user.username@
                        &&& u.description@ == user.description@
                        &&& u.enabled == user.enabled
                        &&& u.permissions == user.permissions
                        &&& match user.new_password {
                            Some(p) => crypto::password_matches(p@, u.password@),
                            None => u.password == old(db).user_by_id(id).password,
                        }
                    })
                },
                Err(e) => {
                    &&& final(db).users@ == old(db).users@
                    &&& match user.id {
                        None => e == GenericError::BadRequest,
                        Some(id) => if !old(db).has_user_id(id) {
                            e == GenericError::NotFound
                        } else {
                            &&& e == GenericError::BadRequest
                            &&& exists|j: int|
                                0 <= j < old(db).users@.len() && j != old(db).user_ix_by_id(id)
                                    && old(db).users@[j].username@ == user.username@
                        },
                    }
                },
            },
    {
        let id = match user.id {
            Some(id) => id,
            None => {
                return Err(GenericError::BadRequest);
            },
        };
        let ix = match db.find_user_by_id(id) {
            Some(ix) => ix,
            None => {
                return Err(GenericError::NotFound);
            },
        };

        // the unique-username rule: the new name may only be the addressed
        // user's own current name or one nobody holds
        if let Some(j) = db.find_user_by_name(&user.username) {
            if j != ix {
                return Err(GenericError::BadRequest);
            }
        }
        proof {
            assert forall|o: int|
                0 <= o < db.users@.len() && o != ix as int implies db.users@[o].username@
                != user.username@ by {
                if db.users@[o].username@ == user.username@ {
                    db.lemma_username_unique(user.username@, o);
                }
            }
        }

        let password_hash = match &user.new_password {
            Some(p) => crypto::hash_password(p.as_str()),
            None => db.users[ix].password.clone(),
        };
        db.users[ix] = DbUser {
            id,
            username: user.username.clone(),
            password: password_hash,
            description: user.description.clone(),
            enabled: user.enabled,
            permissions: user.permissions,
        };
        proof {
            assert forall|a: int, b: int|
                0 <= a < b < db.users@.len() implies db.users@[a].id != db.users@[b].id by {
                assert(db.users@[a].id == old(db).users@[a].id);
                assert(db.users@[b].id == old(db).users@[b].id);
            }
            assert forall|a: int, b: int|
                0 <= a < b < db.users@.len() implies db.users@[a].username@
                != db.users@[b].username@ by {
                if a != ix as int && b != ix as int {
                    assert(db.users@[a] == old(db).users@[a]);
                    assert(db.users@[b] == old(db).users@[b]);
                }
            }
        }
        Ok(id)
    }

    /// Deletes the user with the given id; its session rows stay behind and
    /// fail authorization with `UserNotFound` from now on.
    pub fn delete(&self, db: &mut CredentialStore, user_id: u128) -> (r: Result<(), GenericError>)
        requires
            old(db).wf(),
        ensures
            final(db).wf(),
            final(db).sessions@ == old(db).sessions@,
            final(db).log@ == old(db).log@,
            match r {
                Ok(_) => {
                    &&& old(db).has_user_id(user_id)
                    &&& final(db).users@ == old(db).users@.remove(old(db).user_ix_by_id(user_id))
                },
                Err(e) => {
                    &&& e == GenericError::NotFound
                    &&& !old(db).has_user_id(user_id)
                    &&& final(db).users@ == old(db).users@
                },
            },
    {
        let ix = match db.find_user_by_id(user_id) {
            Some(ix) => ix,
            None => {
                return Err(GenericError::NotFound);
            },
        };
        db.users.remove(ix);
        proof {
            assert forall|a: int, b: int|
                0 <= a < b < db.users@.len() implies db.users@[a].id != db.users@[b].id
                    && db.users@[a].username@ != db.users@[b].username@ by {
                let oa: int = if a < ix as int {
                    a
                } else {
                    a + 1
                };
                let ob: int = if b < ix as int {
                    b
                } else {
                    b + 1
                };
                assert(db.users@[a] == old(db).users@[oa]);
                assert(db.users@[b] == old(db).users@[ob]);
            }
        }
        Ok(())
    }

    /// Replaces the password of the addressed user (a no-op on an unknown
    /// id, as a bulk update over a key is) and invalidates all of the
    /// user's sessions, optionally keeping one token alive.
    pub fn change_password(
        &self,
        db: &mut CredentialStore,
        user_id: u128,
        new_password: &str,
        session_to_keep: Option<&str>,
    ) -> (r: Result<(), GenericError>)
        requires
            old(db).wf(),
            new_password@.len() < 0x4000_0000,
        ensures
            final(db).wf(),
            r is Ok,
            final(db).users@.len() == old(db).users@.len(),
            forall|j: int|
                0 <= j < old(db).users@.len() && (!old(db).has_user_id(user_id) || j != old(
                    db,
                ).user_ix_by_id(user_id)) ==> final(db).users@[j] == old(db).users@[j],
            old(db).has_user_id(user_id) ==> ({
                let u = final(db).users@[old(db).user_ix_by_id(user_id)];
                let v = old(db).user_by_id(user_id);
                &&& crypto::password_matches(new_password@, u.password@)
                &&& u.id == v.id
                &&& u.username == v.username
                &&& u.description == v.description
                &&& u.enabled == v.enabled
                &&& u.permissions == v.permissions
            }),
            final(db).sessions@.len() == old(db).sessions@.len(),
            forall|i: int|
                0 <= i < final(db).sessions@.len() ==> final(db).sessions@[i]
                    == session_after_invalidate(
                    old(db).sessions@[i],
                    user_id,
                    spec_opt_str(session_to_keep),
                ),
            log_appended(
                *final(db),
                old(db).log@,
                Some(user_id),
                spec_opt_str(session_to_keep),
                match session_to_keep {
                    Some(_) => AuditAction::SessionInvalidateAllExcept,
                    None => AuditAction::SessionInvalidateAll,
                },
            ),
    {
        let password_hash = crypto::hash_password(new_password);
        if let Some(ix) = db.find_user_by_id(user_id) {
            db.users[ix].password = password_hash;
            proof {
                assert forall|a: int, b: int|
                    0 <= a < b < db.users@.len() implies db.users@[a].id != db.users@[b].id
                        && db.users@[a].username@ != db.users@[b].username@ by {
                    assert(db.users@[a].id == old(db).users@[a].id);
                    assert(db.users@[b].id == old(db).users@[b].id);
                    assert(db.users@[a].username == old(db).users@[a].username);
                    assert(db.users@[b].username == old(db).users@[b].username);
                }
            }
        }
        let auth = AuthService { session_max_age: self.session_max_age };
        auth.invalidate_sessions(db, user_id, session_to_keep);
        Ok(())
    }
}

} // verus!
