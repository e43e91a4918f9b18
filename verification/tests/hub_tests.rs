use presenter::auth::AuthService;
use presenter::config::AppConfig;
use presenter::extractor::{AuthError, AuthToken};
use presenter::hub::{ContentEntry, DisplayState, Hub};
use presenter::permissions::UserPermission;
use presenter::protocol::{
    handle_request, Connection, DisplayStateRequest, DisplayStateResponse,
};
use presenter::store::CredentialStore;
use presenter::users::{User, UsersService};

fn test_config(session_max_age: u64) -> AppConfig {
    AppConfig {
        host: presenter::config::default_host(),
        port: presenter::config::default_port(),
        cors_allowed_origins: presenter::config::default_cors_allowed_origins(),
        database_file: presenter::config::default_database_file(),
        default_admin_username: presenter::config::default_default_admin_username(),
        default_admin_password: presenter::config::default_default_admin_password(),
        session_max_age,
        static_file_root: presenter::config::default_static_file_root(),
        static_file_index: presenter::config::default_static_file_index(),
        http_caching_max_age: presenter::config::default_http_caching_max_age(),
        database_maintenance_interval: presenter::config::default_database_maintenance_interval(),
        database_quick_checkpoint_interval:
            presenter::config::default_database_quick_checkpoint_interval(),
        database_full_checkpoint_interval:
            presenter::config::default_database_full_checkpoint_interval(),
        client_proxy_url: None,
    }
}

fn operator_token(db: &mut CredentialStore, config: &AppConfig) -> String {
    let users = UsersService::new(config);
    let auth = AuthService::new(config);
    users
        .create(
            db,
            &User {
                id: None,
                username: String::from("operator"),
                new_password: Some(String::from("pw")),
                description: String::new(),
                enabled: true,
                permissions: UserPermission::OPERATION,
            },
        )
        .unwrap();
    auth.authenticate(db, "operator", "pw", 0).unwrap()
}

fn state(id: &str, pairs: &[(&str, &str)]) -> DisplayState {
    DisplayState {
        id: String::from(id),
        content: pairs
            .iter()
            .map(|(k, v)| ContentEntry { key: String::from(*k), value: String::from(*v) })
            .collect(),
        slide_type_id: None,
    }
}

fn expect_state(r: Option<DisplayStateResponse>) -> DisplayState {
    match r {
        Some(DisplayStateResponse::State { state }) => state,
        other => panic!("expected a state response, got {:?}", other),
    }
}

#[test]
fn hub_starts_empty_and_snapshots_do_not_disturb_it() {
    let hub = Hub::new();
    let snapshot = hub.current();
    assert_eq!(snapshot.id, "");
    assert!(snapshot.content.is_empty());
    assert_eq!(snapshot.slide_type_id, None);
    assert_eq!(hub.version, 0);
}

#[test]
fn subscriber_sees_only_the_latest_value() {
    let mut hub = Hub::new();
    let mut sub = hub.subscribe();
    assert_eq!(sub.poll(&hub), None);

    hub.replace(state("a", &[("k", "1")]));
    hub.replace(state("b", &[("k", "2")]));
    hub.replace(state("c", &[("k", "3")]));

    // three missed replacements coalesce into the final value alone
    let seen = sub.poll(&hub).expect("a change must be observable");
    assert_eq!(seen, state("c", &[("k", "3")]));
    assert_eq!(sub.poll(&hub), None);
}

#[test]
fn connection_protocol_scenario() {
    let config = test_config(3600);
    let auth = AuthService::new(&config);
    let mut db = CredentialStore::new();
    let token = operator_token(&mut db, &config);
    let mut hub = Hub::new();

    let mut conn_a = Connection::new(&hub);
    let mut conn_b = Connection::new(&hub);

    // connection A reads the initial state: exactly the empty value
    handle_request(&auth, &mut db, &mut hub, &mut conn_a, DisplayStateRequest::Get, 0);
    let initial = expect_state(conn_a.take_outbound());
    assert_eq!(initial, state("", &[]));

    // connection B publishes while unauthenticated: an explicit denial,
    // the state is unchanged and A hears nothing
    handle_request(
        &auth,
        &mut db,
        &mut hub,
        &mut conn_b,
        DisplayStateRequest::SetState { state: state("intruder", &[("x", "y")]) },
        0,
    );
    assert_eq!(
        conn_b.take_outbound(),
        Some(DisplayStateResponse::AuthResult { auth: false })
    );
    assert_eq!(hub.current(), state("", &[]));
    conn_a.poll_notification(&hub);
    assert_eq!(conn_a.take_outbound(), None);

    // B authenticates with a valid token
    handle_request(
        &auth,
        &mut db,
        &mut hub,
        &mut conn_b,
        DisplayStateRequest::Authenticate { auth_token: token.clone() },
        0,
    );
    assert_eq!(
        conn_b.take_outbound(),
        Some(DisplayStateResponse::AuthResult { auth: true })
    );

    // now B may publish; A and B both observe the new value
    let published = state("slide-1", &[("title", "welcome")]);
    handle_request(
        &auth,
        &mut db,
        &mut hub,
        &mut conn_b,
        DisplayStateRequest::SetState { state: published.clone() },
        0,
    );
    assert_eq!(hub.current(), published);
    conn_a.poll_notification(&hub);
    assert_eq!(expect_state(conn_a.take_outbound()), published);
    conn_b.poll_notification(&hub);
    assert_eq!(expect_state(conn_b.take_outbound()), published);

    // an observer connecting only after the change is not replayed it,
    // and sees it only through its own read
    let mut late = Connection::new(&hub);
    late.poll_notification(&hub);
    assert_eq!(late.take_outbound(), None);
    handle_request(&auth, &mut db, &mut hub, &mut late, DisplayStateRequest::Get, 0);
    assert_eq!(expect_state(late.take_outbound()), published);
}

#[test]
fn authentication_with_a_bad_token_is_remembered_but_denied() {
    let config = test_config(3600);
    let auth = AuthService::new(&config);
    let mut db = CredentialStore::new();
    let mut hub = Hub::new();
    let mut conn = Connection::new(&hub);

    handle_request(
        &auth,
        &mut db,
        &mut hub,
        &mut conn,
        DisplayStateRequest::Authenticate { auth_token: String::from("forged") },
        0,
    );
    assert_eq!(
        conn.take_outbound(),
        Some(DisplayStateResponse::AuthResult { auth: false })
    );

    // a publish with the remembered bad token is denied on re-validation
    handle_request(
        &auth,
        &mut db,
        &mut hub,
        &mut conn,
        DisplayStateRequest::SetState { state: state("x", &[]) },
        0,
    );
    assert_eq!(
        conn.take_outbound(),
        Some(DisplayStateResponse::AuthResult { auth: false })
    );
    assert_eq!(hub.current(), state("", &[]));
}

#[test]
fn a_revoked_session_loses_write_access_mid_connection() {
    let config = test_config(3600);
    let auth = AuthService::new(&config);
    let mut db = CredentialStore::new();
    let token = operator_token(&mut db, &config);
    let mut hub = Hub::new();
    let mut conn = Connection::new(&hub);

    handle_request(
        &auth,
        &mut db,
        &mut hub,
        &mut conn,
        DisplayStateRequest::Authenticate { auth_token: token.clone() },
        0,
    );
    assert_eq!(
        conn.take_outbound(),
        Some(DisplayStateResponse::AuthResult { auth: true })
    );

    auth.logout(&mut db, &token);

    // the publish re-validates the token on every call and is denied now
    handle_request(
        &auth,
        &mut db,
        &mut hub,
        &mut conn,
        DisplayStateRequest::SetState { state: state("x", &[]) },
        0,
    );
    assert_eq!(
        conn.take_outbound(),
        Some(DisplayStateResponse::AuthResult { auth: false })
    );
    assert_eq!(hub.version, 0);
}

#[test]
fn two_publishers_in_succession_converge_on_one_value() {
    let config = test_config(3600);
    let auth = AuthService::new(&config);
    let mut db = CredentialStore::new();
    let token = operator_token(&mut db, &config);
    let mut hub = Hub::new();

    let mut conn_a = Connection::new(&hub);
    let mut conn_b = Connection::new(&hub);
    let mut watcher = Connection::new(&hub);
    for conn in [&mut conn_a, &mut conn_b] {
        handle_request(
            &auth,
            &mut db,
            &mut hub,
            conn,
            DisplayStateRequest::Authenticate { auth_token: token.clone() },
            0,
        );
        conn.take_outbound();
    }

    let first = state("one", &[("n", "1")]);
    let second = state("two", &[("n", "2")]);
    handle_request(
        &auth,
        &mut db,
        &mut hub,
        &mut conn_a,
        DisplayStateRequest::SetState { state: first.clone() },
        0,
    );
    handle_request(
        &auth,
        &mut db,
        &mut hub,
        &mut conn_b,
        DisplayStateRequest::SetState { state: second.clone() },
        0,
    );

    // the shared state is exactly one of the two published values, never a
    // mixture, and every observer converges on that same value
    let settled = hub.current();
    assert!(settled == first || settled == second);
    assert_eq!(settled, second);
    for conn in [&mut conn_a, &mut conn_b, &mut watcher] {
        conn.poll_notification(&hub);
        assert_eq!(expect_state(conn.take_outbound()), settled);
    }
}

#[test]
fn outbound_slot_is_superseded_not_queued() {
    let mut hub = Hub::new();
    let mut conn = Connection::new(&hub);

    hub.replace(state("a", &[]));
    conn.poll_notification(&hub);
    hub.replace(state("b", &[]));
    conn.poll_notification(&hub);

    // the unsent first notification was superseded by the second
    assert_eq!(expect_state(conn.take_outbound()), state("b", &[]));
    assert_eq!(conn.take_outbound(), None);
}

#[test]
fn extractor_authorizes_by_mask_and_handles_missing_tokens() {
    let config = test_config(3600);
    let auth = AuthService::new(&config);
    let mut db = CredentialStore::new();
    let token = operator_token(&mut db, &config);

    let with_token = AuthToken { token: Some(token.clone()) };
    let user = with_token
        .authorize(&auth, &mut db, UserPermission::OPERATION, 0)
        .unwrap()
        .expect("a token-bearing request resolves its user");
    assert_eq!(user.username, "operator");
    assert_eq!(
        with_token.authorize(&auth, &mut db, UserPermission::SYSTEM_ADMIN, 0),
        Err(AuthError::Generic)
    );
    assert_eq!(with_token.token(), Some(token.as_str()));

    let without = AuthToken { token: None };
    assert_eq!(without.authorize(&auth, &mut db, UserPermission::ANY, 0), Ok(None));
    assert_eq!(
        without.authorize(&auth, &mut db, UserPermission::OPERATION, 0),
        Err(AuthError::NoToken)
    );
    assert_eq!(without.token(), None);

    // logging out through the extractor revokes the session
    with_token.logout(&auth, &mut db);
    assert_eq!(
        with_token.authorize(&auth, &mut db, UserPermission::ANY, 0),
        Err(AuthError::Generic)
    );
}
