//! The per-connection protocol of the synchronization hub: inbound requests
//! are dispatched against the hub and the session authority, responses go
//! through a capacity-one outbound slot where a newer response supersedes
//! one not yet sent, and a subscription turns published changes into
//! outbound state messages.

use vstd::prelude::*;

use crate::auth::{
    authorize_decision, authz_fail_reason, authz_fail_user, log_appended, sessions_after_authorize,
    AuthService,
};
use crate::hub::{spec_replace, DisplayState, Hub, Subscriber};
use crate::permissions::UserPermission;
use crate::store::{AuditAction, CredentialStore};

verus! {

/// An inbound message: read the state, present a token, or publish a new
/// state. A malformed inbound payload never reaches this type; the boundary
/// treats it as a protocol error and closes the connection.
pub enum DisplayStateRequest {
    Get,
    Authenticate { auth_token: String },
    SetState { state: DisplayState },
}

/// An outbound message: the outcome of an authentication (also used as the
/// denial of an unauthorized publish), or a state snapshot.
#[derive(Debug, PartialEq, Eq)]
pub enum DisplayStateResponse {
    AuthResult { auth: bool },
    State { state: DisplayState },
}

/// What the session authority does to the store on one authorization call.
pub open spec fn authorize_effects(
    max_age: u64,
    db0: CredentialStore,
    db1: CredentialStore,
    token: Seq<char>,
    required: i64,
    now: i64,
) -> bool {
    &&& db1.wf()
    &&& db1.users@ == db0.users@
    &&& db1.sessions@ == sessions_after_authorize(max_age, db0, token, now)
    &&& match authorize_decision(max_age, db0, token, required, now) {
        Ok(_) => db1.log@ == db0.log@,
        Err(e) => log_appended(
            db1,
            db0.log@,
            authz_fail_user(db0, token, e),
            Some(token),
            AuditAction::AuthorizeFailed(authz_fail_reason(e)),
        ),
    }
}

/// One connection's state: the token it presented in-band (remembered even
/// when it did not authorize, as re-validation happens on every publish),
/// the capacity-one outbound slot, and its change subscription.
pub struct Connection {
    pub auth_token: Option<String>,
    pub outbound: Option<DisplayStateResponse>,
    pub subscriber: Subscriber,
}

impl Connection {
    /// A connection starts unauthenticated, with an empty outbound slot and
    /// a subscription that has observed the current state.
    pub fn new(hub: &Hub) -> (r: Self)
        ensures
            r.auth_token is None,
            r.outbound is None,
            r.subscriber.seen == hub.version,
    {
        Connection { auth_token: None, outbound: None, subscriber: hub.subscribe() }
    }

    /// The outbound duty takes the pending response, leaving the slot free.
    pub fn take_outbound(&mut self) -> (r: Option<DisplayStateResponse>)
        ensures
            r == old(self).outbound,
            final(self).outbound is None,
            final(self).auth_token == old(self).auth_token,
            final(self).subscriber == old(self).subscriber,
    {
        self.outbound.take()
    }

    /// The notification duty: when the hub moved past what this connection
    /// observed, enqueue the latest state (superseding an unsent response)
    /// and record the observation.
    pub fn poll_notification(&mut self, hub: &Hub)
        ensures
            final(self).auth_token == old(self).auth_token,
            final(self).subscriber.seen == hub.version,
            if old(self).subscriber.seen != hub.version {
                final(self).outbound matches Some(DisplayStateResponse::State { state })
                    && state@ == hub.current@
            } else {
                final(self).outbound == old(self).outbound
            },
    {
        match self.subscriber.poll(hub) {
            Some(state) => {
                self.outbound = Some(DisplayStateResponse::State { state });
            },
            None => {},
        }
    }
}

/// The inbound duty's dispatch: one request against the hub, the session
/// authority and this connection.
///
/// `Get` enqueues a snapshot of the current state. `Authenticate` remembers
/// the token, asks the authority whether it grants the operation capability
/// and enqueues the boolean outcome. `SetState` re-validates the remembered
/// token on every call: when it authorizes, the state is replaced (and
/// observers learn of it through their subscriptions); otherwise an explicit
/// denial is enqueued and nothing is mutated.
pub fn handle_request(
    auth: &AuthService,
    db: &mut CredentialStore,
    hub: &mut Hub,
    conn: &mut Connection,
    request: DisplayStateRequest,
    now: i64,
)
    requires
        old(db).wf(),
        old(hub).version < u64::MAX,
    ensures
        final(db).wf(),
        final(conn).subscriber == old(conn).subscriber,
        match request {
            DisplayStateRequest::Get => {
                &&& *final(db) == *old(db)
                &&& *final(hub) == *old(hub)
                &&& final(conn).auth_token == old(conn).auth_token
                &&& final(conn).outbound matches Some(DisplayStateResponse::State { state })
                    && state@ == old(hub).current@
            },
            DisplayStateRequest::Authenticate { auth_token } => {
                &&& *final(hub) == *old(hub)
                &&& final(conn).auth_token == Some(auth_token)
                &&& authorize_effects(
                    auth.session_max_age,
                    *old(db),
                    *final(db),
                    auth_token@,
                    UserPermission::OPERATION,
                    now,
                )
                &&& final(conn).outbound == Some(
                    DisplayStateResponse::AuthResult {
                        auth: authorize_decision(
                            auth.session_max_age,
                            *old(db),
                            auth_token@,
                            UserPermission::OPERATION,
                            now,
                        ) is Ok,
                    },
                )
            },
            DisplayStateRequest::SetState { state } => {
                &&& final(conn).auth_token == old(conn).auth_token
                &&& match old(conn).auth_token {
                    None => {
                        &&& *final(db) == *old(db)
                        &&& *final(hub) == *old(hub)
                        &&& final(conn).outbound == Some(
                            DisplayStateResponse::AuthResult { auth: false },
                        )
                    },
                    Some(token) => {
                        &&& authorize_effects(
                            auth.session_max_age,
                            *old(db),
                            *final(db),
                            token@,
                            UserPermission::OPERATION,
                            now,
                        )
                        &&& if authorize_decision(
                            auth.session_max_age,
                            *old(db),
                            token@,
                            UserPermission::OPERATION,
                            now,
                        ) is Ok {
                            &&& *final(hub) == spec_replace(*old(hub), state)
                            &&& final(conn).outbound == old(conn).outbound
                        } else {
                            &&& *final(hub) == *old(hub)
                            &&& final(conn).outbound == Some(
                                DisplayStateResponse::AuthResult { auth: false },
                            )
                        }
                    },
                }
            },
        },
{
    match request {
        DisplayStateRequest::Get => {
            let state = hub.current();
            conn.outbound = Some(DisplayStateResponse::State { state });
        },
        DisplayStateRequest::Authenticate { auth_token } => {
            let granted = auth.authorize(
                db,
                auth_token.as_str(),
                UserPermission::OPERATION,
                now,
            ).is_ok();
            conn.outbound = Some(DisplayStateResponse::AuthResult { auth: granted });
            conn.auth_token = Some(auth_token);
        },
        DisplayStateRequest::SetState { state } => {
            let can_set = match &conn.auth_token {
                Some(token) => auth.authorize(
                    db,
                    token.as_str(),
                    UserPermission::OPERATION,
                    now,
                ).is_ok(),
                None => false,
            };
            if can_set {
                hub.replace(state);
            } else {
                conn.outbound = Some(DisplayStateResponse::AuthResult { auth: false });
            }
        },
    }
}

} // verus!
