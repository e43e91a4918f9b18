//! The bearer-token extractor: what a request boundary hands the core after
//! reading (or failing to read) an authorization header.

use vstd::prelude::*;

use crate::auth::{authorize_decision, AuthService};
use crate::permissions::UserPermission;
use crate::protocol::authorize_effects;
use crate::store::{CredentialStore, DbUser};

verus! {

/// Why a token-based authorization at the request boundary failed.
#[derive(Clone, Copy, Debug, PartialEq, Eq, Structural)]
pub enum AuthError {
    Generic,
    NoToken,
}

/// The bearer token of one request, if the request carried one.
pub struct AuthToken {
    pub token: Option<String>,
}

impl AuthToken {
    /// The extracted token.
    pub fn token(&self) -> (r: Option<&str>)
        ensures
            match r {
                Some(s) => self.token matches Some(t) && s@ == t@,
                None => self.token is None,
            },
    {
        match &self.token {
            Some(s) => Some(s.as_str()),
            None => None,
        }
    }

    /// Authorizes the extracted token. A request without a token passes
    /// only when no permission is required, and then carries no user.
    pub fn authorize(
        &self,
        auth: &AuthService,
        db: &mut CredentialStore,
        allowed_permissions: i64,
        now: i64,
    ) -> (r: Result<Option<DbUser>, AuthError>)
        requires
            old(db).wf(),
        ensures
            final(db).wf(),
            match self.token {
                Some(t) => {
                    &&& authorize_effects(
                        auth.session_max_age,
                        *old(db),
                        *final(db),
                        t@,
                        allowed_permissions,
                        now,
                    )
                    &&& match authorize_decision(
                        auth.session_max_age,
                        *old(db),
                        t@,
                        allowed_permissions,
                        now,
                    ) {
                        Ok(u) => r == Ok::<Option<DbUser>, AuthError>(Some(u)),
                        Err(_) => r == Err::<Option<DbUser>, AuthError>(AuthError::Generic),
                    }
                },
                None => {
                    &&& *final(db) == *old(db)
                    &&& r == if allowed_permissions == UserPermission::ANY {
                        Ok::<Option<DbUser>, AuthError>(None)
                    } else {
                        Err::<Option<DbUser>, AuthError>(AuthError::NoToken)
                    }
                },
            },
    {
        match &self.token {
            Some(token) => {
                match auth.authorize(db, token.as_str(), allowed_permissions, now) {
                    Ok(user) => Ok(Some(user)),
                    Err(_) => Err(AuthError::Generic),
                }
            },
            None => {
                if allowed_permissions == UserPermission::ANY {
                    Ok(None)
                } else {
                    Err(AuthError::NoToken)
                }
            },
        }
    }

    /// Invalidates the extracted token, if the request carried one.
    pub fn logout(&self, auth: &AuthService, db: &mut CredentialStore)
        requires
            old(db).wf(),
        ensures
            final(db).wf(),
            final(db).users@ == old(db).users@,
            match self.token {
                Some(t) => final(db).sessions@ == crate::auth::sessions_after_logout(
                    *old(db),
                    t@,
                ),
                None => *final(db) == *old(db),
            },
    {
        if let Some(token) = &self.token {
            auth.logout(db, token.as_str());
        }
    }
}

} // verus!
