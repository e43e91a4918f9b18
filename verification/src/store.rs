//! In-memory model of the credential store: persisted users, persisted
//! sessions and the audit log. The session authority and the user service
//! operate on this store; a host program may mirror it to durable storage.

use vstd::prelude::*;

verus! {

/// A persisted user row.
#[derive(Debug, PartialEq, Eq)]
pub struct DbUser {
    pub id: u128,
    pub username: String,
    pub password: String,
    pub description: String,
    pub enabled: bool,
    pub permissions: i64,
}

impl Clone for DbUser {
    fn clone(&self) -> (r: Self)
        ensures
            r == *self,
    {
        DbUser {
            id: self.id,
            username: self.username.clone(),
            password: self.password.clone(),
            description: self.description.clone(),
            enabled: self.enabled,
            permissions: self.permissions,
        }
    }
}

/// A persisted session row. `valid` only ever moves from true to false;
/// expiry is computed from `timestamp` at check time, never stored.
#[derive(Debug, PartialEq, Eq)]
pub struct DbSession {
    pub id: u128,
    pub token: String,
    pub user_id: u128,
    pub timestamp: i64,
    pub valid: bool,
}

impl Clone for DbSession {
    fn clone(&self) -> (r: Self)
        ensures
            r == *self,
    {
        DbSession {
            id: self.id,
            token: self.token.clone(),
            user_id: self.user_id,
            timestamp: self.timestamp,
            valid: self.valid,
        }
    }
}

/// Reason codes recorded with audit events.
#[derive(Clone, Copy, Debug, PartialEq, Eq, Structural)]
pub enum AuditReason {
    NotFound,
    UserDisabled,
    PasswordIncorrect,
    SessionInvalid,
    SessionExpired,
    SessionUserNotFound,
    InvalidRole,
}

/// The audited actions of the session authority.
#[derive(Clone, Copy, Debug, PartialEq, Eq, Structural)]
pub enum AuditAction {
    LoginFailed(AuditReason),
    LoginSuccess,
    AuthorizeFailed(AuditReason),
    Logout,
    SessionInvalidateAll,
    SessionInvalidateAllExcept,
}

/// One audit record: the acting (or affected) user if known, the session
/// token involved if any, and the action with its reason code.
#[derive(Debug, PartialEq, Eq)]
pub struct AuditEvent {
    pub user_id: Option<u128>,
    pub token: Option<String>,
    pub action: AuditAction,
}

/// The credential store: user rows, session rows and the audit log.
pub struct CredentialStore {
    pub users: Vec<DbUser>,
    pub sessions: Vec<DbSession>,
    pub log: Vec<AuditEvent>,
}

impl CredentialStore {
    /// Key uniqueness: user ids and usernames are unique, and session
    /// tokens are unique.
    pub open spec fn wf(self) -> bool {
        &&& forall|i: int, j: int|
            0 <= i < j < self.users@.len() ==> self.users@[i].id != self.users@[j].id
        &&& forall|i: int, j: int|
            0 <= i < j < self.users@.len() ==> self.users@[i].username@ != self.users@[j].username@
        &&& forall|i: int, j: int|
            0 <= i < j < self.sessions@.len() ==> self.sessions@[i].token@ != self.sessions@[j].token@
    }

    pub open spec fn has_user_id(self, id: u128) -> bool {
        exists|i: int| 0 <= i < self.users@.len() && self.users@[i].id == id
    }

    pub open spec fn user_ix_by_id(self, id: u128) -> int {
        choose|i: int| 0 <= i < self.users@.len() && self.users@[i].id == id
    }

    pub open spec fn user_by_id(self, id: u128) -> DbUser {
        self.users@[self.user_ix_by_id(id)]
    }

    pub open spec fn has_username(self, name: Seq<char>) -> bool {
        exists|i: int| 0 <= i < self.users@.len() && self.users@[i].username@ == name
    }

    pub open spec fn user_ix_by_name(self, name: Seq<char>) -> int {
        choose|i: int| 0 <= i < self.users@.len() && self.users@[i].username@ == name
    }

    pub open spec fn user_by_name(self, name: Seq<char>) -> DbUser {
        self.users@[self.user_ix_by_name(name)]
    }

    pub open spec fn has_session(self, token: Seq<char>) -> bool {
        exists|i: int| 0 <= i < self.sessions@.len() && self.sessions@[i].token@ == token
    }

    pub open spec fn session_ix(self, token: Seq<char>) -> int {
        choose|i: int| 0 <= i < self.sessions@.len() && self.sessions@[i].token@ == token
    }

    pub open spec fn session(self, token: Seq<char>) -> DbSession {
        self.sessions@[self.session_ix(token)]
    }

    /// With unique tokens, any index holding the token is the index the
    /// session lookup denotes.
    pub proof fn lemma_session_unique(self, token: Seq<char>, i: int)
        requires
            self.wf(),
            0 <= i < self.sessions@.len(),
            self.sessions@[i].token@ == token,
        ensures
            self.has_session(token),
            self.session_ix(token) == i,
            self.session(token) == self.sessions@[i],
    {
        assert(self.has_session(token));
        let w = self.session_ix(token);
        if w < i {
            assert(self.sessions@[w].token@ != self.sessions@[i].token@);
        }
        if i < w {
            assert(self.sessions@[i].token@ != self.sessions@[w].token@);
        }
    }

    /// With unique user ids, any index holding the id is the index the
    /// user lookup denotes.
    pub proof fn lemma_user_id_unique(self, id: u128, i: int)
        requires
            self.wf(),
            0 <= i < self.users@.len(),
            self.users@[i].id == id,
        ensures
            self.has_user_id(id),
            self.user_ix_by_id(id) == i,
            self.user_by_id(id) == self.users@[i],
    {
        assert(self.has_user_id(id));
        let w = self.user_ix_by_id(id);
        if w < i {
            assert(self.users@[w].id != self.users@[i].id);
        }
        if i < w {
            assert(self.users@[i].id != self.users@[w].id);
        }
    }

    /// With unique usernames, any index holding the name is the index the
    /// lookup by name denotes.
    pub proof fn lemma_username_unique(self, name: Seq<char>, i: int)
        requires
            self.wf(),
            0 <= i < self.users@.len(),
            self.users@[i].username@ == name,
        ensures
            self.has_username(name),
            self.user_ix_by_name(name) == i,
            self.user_by_name(name) == self.users@[i],
    {
        assert(self.has_username(name));
        let w = self.user_ix_by_name(name);
        if w < i {
            assert(self.users@[w].username@ != self.users@[i].username@);
        }
        if i < w {
            assert(self.users@[i].username@ != self.users@[w].username@);
        }
    }

    /// An empty store.
    pub fn new() -> (r: Self)
        ensures
            r.wf(),
            r.users@.len() == 0,
            r.sessions@.len() == 0,
            r.log@.len() == 0,
    {
        CredentialStore { users: Vec::new(), sessions: Vec::new(), log: Vec::new() }
    }

    /// Finds the index of the session with the given token, if any.
    pub fn find_session(&self, token: &String) -> (r: Option<usize>)
        requires
            self.wf(),
        ensures
            match r {
                Some(i) => {
                    &&& self.has_session(token@)
                    &&& i == self.session_ix(token@)
                    &&& i < self.sessions@.len()
                    &&& self.sessions@[i as int].token@ == token@
                },
                None => !self.has_session(token@),
            },
    {
        let n = self.sessions.len();
        let mut k: usize = 0;
        while k < n
            invariant
                self.wf(),
                n == self.sessions@.len(),
                k <= n,
                forall|j: int| 0 <= j < k ==> self.sessions@[j].token@ != token@,
            decreases n - k,
        {
            if self.sessions[k].token == *token {
                proof {
                    assert(self.has_session(token@));
                    let w = self.session_ix(token@);
                    if k as int != w {
                        assert(self.sessions@[k as int].token@ != self.sessions@[w].token@);
                    }
                }
                return Some(k);
            }
            k += 1;
        }
        None
    }

    /// Finds the index of the user with the given id, if any.
    pub fn find_user_by_id(&self, id: u128) -> (r: Option<usize>)
        requires
            self.wf(),
        ensures
            match r {
                Some(i) => {
                    &&& self.has_user_id(id)
                    &&& i == self.user_ix_by_id(id)
                    &&& i < self.users@.len()
                    &&& self.users@[i as int].id == id
                },
                None => !self.has_user_id(id),
            },
    {
        let n = self.users.len();
        let mut k: usize = 0;
        while k < n
            invariant
                self.wf(),
                n == self.users@.len(),
                k <= n,
                forall|j: int| 0 <= j < k ==> self.users@[j].id != id,
            decreases n - k,
        {
            if self.users[k].id == id {
                proof {
                    assert(self.has_user_id(id));
                    let w = self.user_ix_by_id(id);
                    if k as int != w {
                        assert(self.users@[k as int].id != self.users@[w].id);
                    }
                }
                return Some(k);
            }
            k += 1;
        }
        None
    }

    /// Finds the index of the user with the given name, if any.
    pub fn find_user_by_name(&self, name: &String) -> (r: Option<usize>)
        requires
            self.wf(),
        ensures
            match r {
                Some(i) => {
                    &&& self.has_username(name@)
                    &&& i == self.user_ix_by_name(name@)
                    &&& i < self.users@.len()
                    &&& self.users@[i as int].username@ == name@
                },
                None => !self.has_username(name@),
            },
    {
        let n = self.users.len();
        let mut k: usize = 0;
        while k < n
            invariant
                self.wf(),
                n == self.users@.len(),
                k <= n,
                forall|j: int| 0 <= j < k ==> self.users@[j].username@ != name@,
            decreases n - k,
        {
            if self.users[k].username == *name {
                proof {
                    assert(self.has_username(name@));
                    let w = self.user_ix_by_name(name@);
                    if k as int != w {
                        assert(self.users@[k as int].username@ != self.users@[w].username@);
                    }
                }
                return Some(k);
            }
            k += 1;
        }
        None
    }
}

} // verus!
