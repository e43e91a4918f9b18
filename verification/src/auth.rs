//! The session authority: issuing, validating, renewing and revoking
//! opaque bearer tokens over the credential store.

use vstd::prelude::*;

use crate::config::AppConfig;
use crate::crypto;
use crate::permissions;
use crate::permissions::UserPermission;
use crate::store::{AuditAction, AuditEvent, AuditReason, CredentialStore, DbSession, DbUser};

verus! {

/// A session younger than this (seconds) is not re-stamped on authorization.
pub const SESSION_RENEW_MIN_AGE: i64 = 60;

/// Why an authentication attempt was rejected.
#[derive(Clone, Copy, Debug, PartialEq, Eq, Structural)]
pub enum AuthenticationFailure {
    NotFound,
    UserDisabled,
    InvalidCredentials,
}

/// Why an authorization attempt was rejected.
#[derive(Clone, Copy, Debug, PartialEq, Eq, Structural)]
pub enum AuthorizationFailure {
    SessionNotFound,
    SessionInvalid,
    SessionExpired,
    UserNotFound,
    UserDisabled,
    Forbidden,
}

/// A session is expired when more than `max_age` seconds passed since its
/// last recorded activity.
pub open spec fn is_expired(max_age: u64, timestamp: i64, now: i64) -> bool {
    now - timestamp > max_age
}

/// Age (seconds since last activity) above which an authorization re-stamps
/// the session: the smaller of the fixed renewal age and half the maximum
/// age, so expiry stays accurate to within the threshold.
pub open spec fn renew_threshold(max_age: u64) -> int {
    if max_age / 2 < (SESSION_RENEW_MIN_AGE as u64) {
        (max_age / 2) as int
    } else {
        SESSION_RENEW_MIN_AGE as int
    }
}

pub open spec fn needs_renewal(max_age: u64, timestamp: i64, now: i64) -> bool {
    now - timestamp > renew_threshold(max_age)
}

pub open spec fn with_timestamp(s: DbSession, timestamp: i64) -> DbSession {
    DbSession { id: s.id, token: s.token, user_id: s.user_id, timestamp, valid: s.valid }
}

pub open spec fn invalidated_session(s: DbSession) -> DbSession {
    DbSession { id: s.id, token: s.token, user_id: s.user_id, timestamp: s.timestamp, valid: false }
}

/// The outcome `authenticate` owes for the given store and credentials.
pub open spec fn authenticate_decision(
    db: CredentialStore,
    username: Seq<char>,
    password: Seq<char>,
) -> Result<DbUser, AuthenticationFailure> {
    if !db.has_username(username) {
        Err(AuthenticationFailure::NotFound)
    } else {
        let user = db.user_by_name(username);
        if !user.enabled {
            Err(AuthenticationFailure::UserDisabled)
        } else if !crypto::password_matches(password, user.password@) {
            Err(AuthenticationFailure::InvalidCredentials)
        } else {
            Ok(user)
        }
    }
}

/// The outcome `authorize` owes for the given store, token, mask and time.
pub open spec fn authorize_decision(
    max_age: u64,
    db: CredentialStore,
    token: Seq<char>,
    required: i64,
    now: i64,
) -> Result<DbUser, AuthorizationFailure> {
    if !db.has_session(token) {
        Err(AuthorizationFailure::SessionNotFound)
    } else {
        let session = db.session(token);
        if !session.valid {
            Err(AuthorizationFailure::SessionInvalid)
        } else if is_expired(max_age, session.timestamp, now) {
            Err(AuthorizationFailure::SessionExpired)
        } else if !db.has_user_id(session.user_id) {
            Err(AuthorizationFailure::UserNotFound)
        } else {
            let user = db.user_by_id(session.user_id);
            if !user.enabled {
                Err(AuthorizationFailure::UserDisabled)
            } else if !permissions::satisfies(user.permissions, required) {
                Err(AuthorizationFailure::Forbidden)
            } else {
                Ok(user)
            }
        }
    }
}

/// The session rows after an authorization: the addressed session is
/// re-stamped to `now` when it is live and old enough, everything else is
/// untouched.
pub open spec fn sessions_after_authorize(
    max_age: u64,
    db: CredentialStore,
    token: Seq<char>,
    now: i64,
) -> Seq<DbSession> {
    if db.has_session(token) && db.session(token).valid && !is_expired(
        max_age,
        db.session(token).timestamp,
        now,
    ) && needs_renewal(max_age, db.session(token).timestamp, now) {
        db.sessions@.update(db.session_ix(token), with_timestamp(db.session(token), now))
    } else {
        db.sessions@
    }
}

/// The session rows after a logout: the addressed session, if present, has
/// its `valid` flag cleared.
pub open spec fn sessions_after_logout(db: CredentialStore, token: Seq<char>) -> Seq<DbSession> {
    if db.has_session(token) {
        db.sessions@.update(db.session_ix(token), invalidated_session(db.session(token)))
    } else {
        db.sessions@
    }
}

pub open spec fn except_matches(s: DbSession, except: Option<Seq<char>>) -> bool {
    match except {
        Some(t) => s.token@ == t,
        None => false,
    }
}

/// One session row after a bulk invalidation for `user_id`.
pub open spec fn session_after_invalidate(
    s: DbSession,
    user_id: u128,
    except: Option<Seq<char>>,
) -> DbSession {
    if s.user_id == user_id && !except_matches(s, except) {
        invalidated_session(s)
    } else {
        s
    }
}

pub open spec fn spec_opt_str(o: Option<&str>) -> Option<Seq<char>> {
    match o {
        Some(t) => Some(t@),
        None => None,
    }
}

pub open spec fn opt_views_match(a: Option<&str>, b: Option<String>) -> bool {
    match (a, b) {
        (Some(x), Some(y)) => x@ == y@,
        (None, None) => true,
        _ => false,
    }
}

/// The audit event an `AuditEvent` must carry, by fields.
pub open spec fn is_event(
    e: AuditEvent,
    user_id: Option<u128>,
    token: Option<Seq<char>>,
    action: AuditAction,
) -> bool {
    &&& e.user_id == user_id
    &&& match (e.token, token) {
        (Some(t), Some(v)) => t@ == v,
        (None, None) => true,
        _ => false,
    }
    &&& e.action == action
}

/// Exactly one event was appended to the audit log.
pub open spec fn log_appended(
    db: CredentialStore,
    old_log: Seq<AuditEvent>,
    user_id: Option<u128>,
    token: Option<Seq<char>>,
    action: AuditAction,
) -> bool {
    &&& db.log@.len() == old_log.len() + 1
    &&& db.log@.drop_last() == old_log
    &&& is_event(db.log@.last(), user_id, token, action)
}

pub open spec fn authn_fail_reason(e: AuthenticationFailure) -> AuditReason {
    match e {
        AuthenticationFailure::NotFound => AuditReason::NotFound,
        AuthenticationFailure::UserDisabled => AuditReason::UserDisabled,
        AuthenticationFailure::InvalidCredentials => AuditReason::PasswordIncorrect,
    }
}

pub open spec fn authn_fail_user(
    db: CredentialStore,
    username: Seq<char>,
    e: AuthenticationFailure,
) -> Option<u128> {
    match e {
        AuthenticationFailure::NotFound => None,
        AuthenticationFailure::UserDisabled | AuthenticationFailure::InvalidCredentials => Some(
            db.user_by_name(username).id,
        ),
    }
}

pub open spec fn authz_fail_reason(e: AuthorizationFailure) -> AuditReason {
    match e {
        AuthorizationFailure::SessionNotFound => AuditReason::NotFound,
        AuthorizationFailure::SessionInvalid => AuditReason::SessionInvalid,
        AuthorizationFailure::SessionExpired => AuditReason::SessionExpired,
        AuthorizationFailure::UserNotFound => AuditReason::SessionUserNotFound,
        AuthorizationFailure::UserDisabled => AuditReason::UserDisabled,
        AuthorizationFailure::Forbidden => AuditReason::InvalidRole,
    }
}

pub open spec fn authz_fail_user(
    db: CredentialStore,
    token: Seq<char>,
    e: AuthorizationFailure,
) -> Option<u128> {
    match e {
        AuthorizationFailure::SessionNotFound
        | AuthorizationFailure::SessionInvalid
        | AuthorizationFailure::SessionExpired => None,
        AuthorizationFailure::UserNotFound
        | AuthorizationFailure::UserDisabled
        | AuthorizationFailure::Forbidden => Some(db.session(token).user_id),
    }
}

/// The session authority.
pub struct AuthService {
    pub session_max_age: u64,
}

impl AuthService {
    pub fn new(config: &AppConfig) -> (r: Self)
        ensures
            r.session_max_age == config.session_max_age,
    {
        AuthService { session_max_age: config.session_max_age }
    }

    /// Evaluates the permission model for a user's bitmask.
    pub fn check_permissions(user_permissions: i64, allowed_permissions: i64) -> (r: bool)
        ensures
            r == permissions::satisfies(user_permissions, allowed_permissions),
    {
        (allowed_permissions & (user_permissions | i64::MIN)) != 0
    }

    /// Hashes a password for storage; never stores or logs the plaintext.
    pub fn hash_password(password: &str) -> (r: String)
        requires
            password@.len() < 0x4000_0000,
        ensures
            crypto::password_matches(password@, r@),
    {
        crypto::hash_password(password)
    }

    /// Authenticates a user. On success a fresh 255-character session token
    /// is persisted with the current timestamp and returned; every failure
    /// is audited with its reason and nothing else changes.
    pub fn authenticate(
        &self,
        db: &mut CredentialStore,
        username: &str,
        password: &str,
        now: i64,
    ) -> (r: Result<String, AuthenticationFailure>)
        requires
            old(db).wf(),
        ensures
            final(db).wf(),
            final(db).users@ == old(db).users@,
            match r {
                Ok(token) => {
                    &&& authenticate_decision(*old(db), username@, password@) == Ok::<
                        DbUser,
                        AuthenticationFailure,
                    >(old(db).user_by_name(username@))
                    &&& token@.len() == 255
                    &&& final(db).has_session(token@)
                    &&& final(db).session(token@).user_id == old(db).user_by_name(username@).id
                    &&& final(db).session(token@).timestamp == now
                    &&& final(db).session(token@).valid
                    &&& final(db).has_user_id(old(db).user_by_name(username@).id)
                    &&& final(db).user_by_id(old(db).user_by_name(username@).id) == old(db).user_by_name(username@)
                    &&& if old(db).has_session(token@) {
                        final(db).sessions@ == old(db).sessions@.update(
                            old(db).session_ix(token@),
                            final(db).session(token@),
                        )
                    } else {
                        final(db).sessions@ == old(db).sessions@.push(final(db).session(token@))
                    }
                    &&& log_appended(
                        *final(db),
                        old(db).log@,
                        Some(old(db).user_by_name(username@).id),
                        Some(token@),
                        AuditAction::LoginSuccess,
                    )
                },
                Err(e) => {
                    &&& authenticate_decision(*old(db), username@, password@) == Err::<
                        DbUser,
                        AuthenticationFailure,
                    >(e)
                    &&& final(db).sessions@ == old(db).sessions@
                    &&& log_appended(
                        *final(db),
                        old(db).log@,
                        authn_fail_user(*old(db), username@, e),
                        None,
                        AuditAction::LoginFailed(authn_fail_reason(e)),
                    )
                },
            },
    {
        let username_string = username.to_owned();
        match db.find_user_by_name(&username_string) {
            None => {
                db.log.push(
                    AuditEvent {
                        user_id: None,
                        token: None,
                        action: AuditAction::LoginFailed(AuditReason::NotFound),
                    },
                );
                proof {
                    assert(db.log@.drop_last() =~= old(db).log@);
                }
                Err(AuthenticationFailure::NotFound)
            },
            Some(i) => {
                let user_id = db.users[i].id;
                if !db.users[i].enabled {
                    db.log.push(
                        AuditEvent {
                            user_id: Some(user_id),
                            token: None,
                            action: AuditAction::LoginFailed(AuditReason::UserDisabled),
                        },
                    );
                    proof {
                        assert(db.log@.drop_last() =~= old(db).log@);
                    }
                    return Err(AuthenticationFailure::UserDisabled);
                }
                if !crypto::verify_password(password, db.users[i].password.as_str()) {
                    db.log.push(
                        AuditEvent {
                            user_id: Some(user_id),
                            token: None,
                            action: AuditAction::LoginFailed(AuditReason::PasswordIncorrect),
                        },
                    );
                    proof {
                        assert(db.log@.drop_last() =~= old(db).log@);
                    }
                    return Err(AuthenticationFailure::InvalidCredentials);
                }

                let token = crypto::generate_token();
                let session_id = crypto::generate_id();
                let session = DbSession {
                    id: session_id,
                    token: token.clone(),
                    user_id,
                    timestamp: now,
                    valid: true,
                };
                // a randomly drawn 255-character token collides with an
                // existing one with probability too small to arise; if it
                // ever does, the stale session row is replaced outright
                let ghost pos: int;
                match db.find_session(&token) {
                    None => {
                        proof {
                            pos = db.sessions@.len() as int;
                        }
                        db.sessions.push(session);
                        proof {
                            assert forall|a: int, b: int|
                                0 <= a < b < db.sessions@.len() implies db.sessions@[a].token@
                                != db.sessions@[b].token@ by {
                                assert(db.sessions@[a] == old(db).sessions@[a]);
                                if b < pos {
                                    assert(db.sessions@[b] == old(db).sessions@[b]);
                                }
                            }
                        }
                    },
                    Some(ix) => {
                        proof {
                            pos = ix as int;
                        }
                        db.sessions[ix] = session;
                        proof {
                            assert forall|a: int, b: int|
                                0 <= a < b < db.sessions@.len() implies db.sessions@[a].token@
                                != db.sessions@[b].token@ by {
                                assert(db.sessions@[a].token@ == old(db).sessions@[a].token@);
                                assert(db.sessions@[b].token@ == old(db).sessions@[b].token@);
                            }
                        }
                    },
                }
                db.log.push(
                    AuditEvent {
                        user_id: Some(user_id),
                        token: Some(token.clone()),
                        action: AuditAction::LoginSuccess,
                    },
                );
                proof {
                    assert(db.log@.drop_last() =~= old(db).log@);
                    assert(db.sessions@[pos].token@ == token@);
                    db.lemma_session_unique(token@, pos);
                    assert(db.users@[i as int].id == user_id);
                    db.lemma_user_id_unique(user_id, i as int);
                    assert(db.user_by_id(user_id) == old(db).user_by_name(username@));
                }
                Ok(token)
            },
        }
    }

    /// Authorizes the bearer of a token against a required permission mask.
    /// Returns the owning user on success; re-stamps the session when it is
    /// older than the renewal threshold; audits every failure.
    pub fn authorize(
        &self,
        db: &mut CredentialStore,
        token: &str,
        allowed_permissions: i64,
        now: i64,
    ) -> (r: Result<DbUser, AuthorizationFailure>)
        requires
            old(db).wf(),
        ensures
            final(db).wf(),
            final(db).users@ == old(db).users@,
            final(db).sessions@ == sessions_after_authorize(self.session_max_age, *old(db), token@, now),
            r == authorize_decision(self.session_max_age, *old(db), token@, allowed_permissions, now),
            match r {
                Ok(_) => final(db).log@ == old(db).log@,
                Err(e) => log_appended(
                    *final(db),
                    old(db).log@,
                    authz_fail_user(*old(db), token@, e),
                    Some(token@),
                    AuditAction::AuthorizeFailed(authz_fail_reason(e)),
                ),
            },
    {
        let token_string = token.to_owned();
        let six = match db.find_session(&token_string) {
            None => {
                db.log.push(
                    AuditEvent {
                        user_id: None,
                        token: Some(token.to_owned()),
                        action: AuditAction::AuthorizeFailed(AuditReason::NotFound),
                    },
                );
                proof {
                    assert(db.log@.drop_last() =~= old(db).log@);
                }
                return Err(AuthorizationFailure::SessionNotFound);
            },
            Some(i) => i,
        };

        if !db.sessions[six].valid {
            db.log.push(
                AuditEvent {
                    user_id: None,
                    token: Some(token.to_owned()),
                    action: AuditAction::AuthorizeFailed(AuditReason::SessionInvalid),
                },
            );
            proof {
                assert(db.log@.drop_last() =~= old(db).log@);
            }
            return Err(AuthorizationFailure::SessionInvalid);
        }

        let timestamp = db.sessions[six].timestamp;
        let user_id = db.sessions[six].user_id;
        let age: i128 = (now as i128) - (timestamp as i128);

        if age > self.session_max_age as i128 {
            db.log.push(
                AuditEvent {
                    user_id: None,
                    token: Some(token.to_owned()),
                    action: AuditAction::AuthorizeFailed(AuditReason::SessionExpired),
                },
            );
            proof {
                assert(db.log@.drop_last() =~= old(db).log@);
            }
            return Err(AuthorizationFailure::SessionExpired);
        }

        // re-stamp the session when it is older than the renewal threshold,
        // to amortize writes under frequent polling
        let renew_min: u64 = SESSION_RENEW_MIN_AGE as u64;
        let half: u64 = self.session_max_age / 2;
        let threshold: u64 = if half < renew_min {
            half
        } else {
            renew_min
        };
        if age > threshold as i128 {
            db.sessions[six].timestamp = now;
            proof {
                assert(db.sessions@ == old(db).sessions@.update(
                    six as int,
                    with_timestamp(old(db).session(token@), now),
                ));
                assert forall|a: int, b: int|
                    0 <= a < b < db.sessions@.len() implies db.sessions@[a].token@
                    != db.sessions@[b].token@ by {
                    assert(db.sessions@[a].token == old(db).sessions@[a].token);
                    assert(db.sessions@[b].token == old(db).sessions@[b].token);
                }
            }
        }

        let uix = match db.find_user_by_id(user_id) {
            None => {
                db.log.push(
                    AuditEvent {
                        user_id: Some(user_id),
                        token: Some(token.to_owned()),
                        action: AuditAction::AuthorizeFailed(AuditReason::SessionUserNotFound),
                    },
                );
                proof {
                    assert(db.log@.drop_last() =~= old(db).log@);
                }
                return Err(AuthorizationFailure::UserNotFound);
            },
            Some(i) => i,
        };

        if !db.users[uix].enabled {
            db.log.push(
                AuditEvent {
                    user_id: Some(user_id),
                    token: Some(token.to_owned()),
                    action: AuditAction::AuthorizeFailed(AuditReason::UserDisabled),
                },
            );
            proof {
                assert(db.log@.drop_last() =~= old(db).log@);
            }
            return Err(AuthorizationFailure::UserDisabled);
        }

        if !Self::check_permissions(db.users[uix].permissions, allowed_permissions) {
            db.log.push(
                AuditEvent {
                    user_id: Some(user_id),
                    token: Some(token.to_owned()),
                    action: AuditAction::AuthorizeFailed(AuditReason::InvalidRole),
                },
            );
            proof {
                assert(db.log@.drop_last() =~= old(db).log@);
            }
            return Err(AuthorizationFailure::Forbidden);
        }

        Ok(db.users[uix].clone())
    }

    /// Invalidates exactly the session with the given token (a no-op on an
    /// unknown token) and audits the event against the owning user if found.
    pub fn logout(&self, db: &mut CredentialStore, token: &str)
        requires
            old(db).wf(),
        ensures
            final(db).wf(),
            final(db).users@ == old(db).users@,
            final(db).sessions@ == sessions_after_logout(*old(db), token@),
            log_appended(
                *final(db),
                old(db).log@,
                if old(db).has_session(token@) {
                    Some(old(db).session(token@).user_id)
                } else {
                    None
                },
                Some(token@),
                AuditAction::Logout,
            ),
    {
        let token_string = token.to_owned();
        let user_id = match db.find_session(&token_string) {
            None => None,
            Some(i) => {
                let uid = db.sessions[i].user_id;
                db.sessions[i].valid = false;
                proof {
                    assert(db.sessions@ == old(db).sessions@.update(
                        i as int,
                        invalidated_session(old(db).session(token@)),
                    ));
                    assert forall|a: int, b: int|
                        0 <= a < b < db.sessions@.len() implies db.sessions@[a].token@
                        != db.sessions@[b].token@ by {
                        assert(db.sessions@[a].token == old(db).sessions@[a].token);
                        assert(db.sessions@[b].token == old(db).sessions@[b].token);
                    }
                }
                Some(uid)
            },
        };
        db.log.push(
            AuditEvent { user_id, token: Some(token.to_owned()), action: AuditAction::Logout },
        );
        proof {
            assert(db.log@.drop_last() =~= old(db).log@);
        }
    }

    /// Invalidates all sessions of a user, optionally keeping one token
    /// alive, and audits a summary event.
    pub fn invalidate_sessions(&self, db: &mut CredentialStore, user_id: u128, except: Option<&str>)
        requires
            old(db).wf(),
        ensures
            final(db).wf(),
            final(db).users@ == old(db).users@,
            final(db).sessions@.len() == old(db).sessions@.len(),
            forall|i: int|
                0 <= i < final(db).sessions@.len() ==> final(db).sessions@[i] == session_after_invalidate(
                    old(db).sessions@[i],
                    user_id,
                    spec_opt_str(except),
                ),
            log_appended(
                *final(db),
                old(db).log@,
                Some(user_id),
                spec_opt_str(except),
                match except {
                    Some(_) => AuditAction::SessionInvalidateAllExcept,
                    None => AuditAction::SessionInvalidateAll,
                },
            ),
    {
        let except_string: Option<String> = match except {
            Some(t) => Some(t.to_owned()),
            None => None,
        };

        let n = db.sessions.len();
        let mut k: usize = 0;
        while k < n
            invariant
                old(db).wf(),
                opt_views_match(except, except_string),
                n == db.sessions@.len(),
                db.sessions@.len() == old(db).sessions@.len(),
                db.users@ == old(db).users@,
                db.log@ == old(db).log@,
                k <= n,
                forall|j: int|
                    0 <= j < k ==> db.sessions@[j] == session_after_invalidate(
                        old(db).sessions@[j],
                        user_id,
                        spec_opt_str(except),
                    ),
                forall|j: int| k <= j < n ==> db.sessions@[j] == old(db).sessions@[j],
            decreases n - k,
        {
            let keep = match &except_string {
                Some(t) => db.sessions[k].token == *t,
                None => false,
            };
            if db.sessions[k].user_id == user_id && !keep {
                db.sessions[k].valid = false;
            }
            k += 1;
        }

        proof {
            assert forall|a: int, b: int|
                0 <= a < b < db.sessions@.len() implies db.sessions@[a].token@
                != db.sessions@[b].token@ by {
                assert(db.sessions@[a].token == old(db).sessions@[a].token);
                assert(db.sessions@[b].token == old(db).sessions@[b].token);
            }
        }

        let event = match except {
            Some(t) => AuditEvent {
                user_id: Some(user_id),
                token: Some(t.to_owned()),
                action: AuditAction::SessionInvalidateAllExcept,
            },
            None => AuditEvent {
                user_id: Some(user_id),
                token: None,
                action: AuditAction::SessionInvalidateAll,
            },
        };
        db.log.push(event);
        proof {
            assert(db.log@.drop_last() =~= old(db).log@);
        }
    }

    /// The user owning the session with this token, if the session exists.
    pub fn get_user_id_from_token(&self, db: &CredentialStore, token: &str) -> (r: Option<u128>)
        requires
            db.wf(),
        ensures
            r == if db.has_session(token@) {
                Some(db.session(token@).user_id)
            } else {
                None::<u128>
            },
    {
        let token_string = token.to_owned();
        match db.find_session(&token_string) {
            None => None,
            Some(i) => Some(db.sessions[i].user_id),
        }
    }
}

/// A session just created by a successful authentication — present, valid,
/// stamped with the current time, owned by an existing enabled user —
/// immediately authorizes: with the sentinel mask, and with any mask that
/// overlaps the owning user's permissions.
pub proof fn lemma_fresh_session_authorizes(
    max_age: u64,
    db: CredentialStore,
    token: Seq<char>,
    required: i64,
    now: i64,
)
    requires
        db.wf(),
        db.has_session(token),
        db.session(token).valid,
        db.session(token).timestamp == now,
        db.has_user_id(db.session(token).user_id),
        db.user_by_id(db.session(token).user_id).enabled,
    ensures
        authorize_decision(max_age, db, token, UserPermission::ANY, now) == Ok::<
            DbUser,
            AuthorizationFailure,
        >(db.user_by_id(db.session(token).user_id)),
        required & db.user_by_id(db.session(token).user_id).permissions != 0
            ==> authorize_decision(max_age, db, token, required, now) == Ok::<
            DbUser,
            AuthorizationFailure,
        >(db.user_by_id(db.session(token).user_id)),
{
    let user = db.user_by_id(db.session(token).user_id);
    permissions::lemma_satisfies_characterization(user.permissions, required);
    permissions::lemma_overlap_satisfies(user.permissions, required);
}

/// After a logout of a present session, authorizing the same token fails
/// with `SessionInvalid`, for every mask and every time.
pub proof fn lemma_logout_invalidates(
    max_age: u64,
    db: CredentialStore,
    db_after: CredentialStore,
    token: Seq<char>,
    required: i64,
    now: i64,
)
    requires
        db.wf(),
        db_after.wf(),
        db.has_session(token),
        db_after.sessions@ == sessions_after_logout(db, token),
    ensures
        authorize_decision(max_age, db_after, token, required, now) == Err::<
            DbUser,
            AuthorizationFailure,
        >(AuthorizationFailure::SessionInvalid),
{
    let i = db.session_ix(token);
    assert(db_after.sessions@[i].token@ == token);
    db_after.lemma_session_unique(token, i);
    assert(!db_after.session(token).valid);
}

/// Within the renewal threshold an authorization leaves the session's
/// activity timestamp unchanged; beyond it (but before expiry) the
/// timestamp advances to `now`, and later expiry is measured from `now`.
pub proof fn lemma_renewal(
    max_age: u64,
    db: CredentialStore,
    token: Seq<char>,
    now: i64,
    later: i64,
)
    requires
        db.wf(),
        db.has_session(token),
        db.session(token).valid,
        !is_expired(max_age, db.session(token).timestamp, now),
    ensures
        now - db.session(token).timestamp <= renew_threshold(max_age) ==> sessions_after_authorize(
            max_age,
            db,
            token,
            now,
        ) == db.sessions@,
        now - db.session(token).timestamp > renew_threshold(max_age) ==> {
            let after = sessions_after_authorize(max_age, db, token, now);
            &&& after[db.session_ix(token)].timestamp == now
            &&& (is_expired(max_age, after[db.session_ix(token)].timestamp, later) <==> later - now
                > max_age)
        },
{
}

/// A session whose last activity lies further back than the maximum age
/// fails authorization with `SessionExpired`, even while its stored `valid`
/// flag is still true.
pub proof fn lemma_expired_session(
    max_age: u64,
    db: CredentialStore,
    token: Seq<char>,
    required: i64,
    now: i64,
)
    requires
        db.wf(),
        db.has_session(token),
        db.session(token).valid,
        now - db.session(token).timestamp > max_age,
    ensures
        authorize_decision(max_age, db, token, required, now) == Err::<
            DbUser,
            AuthorizationFailure,
        >(AuthorizationFailure::SessionExpired),
{
}

} // verus!
