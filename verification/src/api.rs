//! The request/response contract of the login boundary: credentials in,
//! token and user out.

use vstd::prelude::*;

use crate::auth::{
    authenticate_decision, lemma_fresh_session_authorizes, AuthService,
};
use crate::extractor::AuthError;
use crate::permissions::UserPermission;
use crate::store::CredentialStore;
use crate::users::{spec_from_db_user, User};

verus! {

/// A login call: credentials presented by the caller.
pub struct LoginRequest {
    pub username: String,
    pub password: String,
}

/// A successful login: the fresh bearer token and the authenticated user.
#[derive(Debug)]
pub struct LoginResponse {
    pub token: String,
    pub user: User,
}

/// The computation behind the login endpoint: authenticate the credentials,
/// then resolve the user for the fresh token with no permission required.
/// A failed login is reported as one generic failure, never revealing which
/// check rejected it (the audit log in the store has the reason).
pub fn login(
    auth: &AuthService,
    db: &mut CredentialStore,
    request: &LoginRequest,
    now: i64,
) -> (r: Result<LoginResponse, AuthError>)
    requires
        old(db).wf(),
    ensures
        final(db).wf(),
        final(db).users@ == old(db).users@,
        match r {
            Ok(resp) => {
                &&& authenticate_decision(*old(db), request.username@, request.password@) == Ok::<
                    crate::store::DbUser,
                    crate::auth::AuthenticationFailure,
                >(old(db).user_by_name(request.username@))
                &&& resp.token@.len() == 255
                &&& resp.user == spec_from_db_user(old(db).user_by_name(request.username@))
                &&& final(db).has_session(resp.token@)
                &&& final(db).session(resp.token@).valid
                &&& final(db).session(resp.token@).timestamp == now
                &&& final(db).session(resp.token@).user_id == old(db).user_by_name(
                    request.username@,
                ).id
            },
            Err(e) => {
                &&& e == AuthError::Generic
                &&& authenticate_decision(*old(db), request.username@, request.password@) is Err
                &&& final(db).sessions@ == old(db).sessions@
            },
        },
{
    let token = match auth.authenticate(
        db,
        request.username.as_str(),
        request.password.as_str(),
        now,
    ) {
        Ok(token) => token,
        Err(_) => {
            return Err(AuthError::Generic);
        },
    };
    proof {
        lemma_fresh_session_authorizes(
            auth.session_max_age,
            *db,
            token@,
            UserPermission::ANY,
            now,
        );
    }
    let user = match auth.authorize(db, token.as_str(), UserPermission::ANY, now) {
        Ok(user) => user,
        Err(_) => {
            proof {
                assert(false);
            }
            return Err(AuthError::Generic);
        },
    };
    Ok(LoginResponse { token, user: User::from_db_user(&user) })
}

} // verus!
