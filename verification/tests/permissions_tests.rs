use presenter::auth::AuthService;
use presenter::config;
use presenter::content::ContentFor;
use presenter::permissions::UserPermission;
use presenter::users::GenericError;

#[test]
fn sentinel_always_satisfied() {
    assert!(AuthService::check_permissions(0, UserPermission::ANY));
    assert!(AuthService::check_permissions(i64::MIN, UserPermission::ANY));
    assert!(AuthService::check_permissions(i64::MAX, UserPermission::ANY));
    assert!(AuthService::check_permissions(
        UserPermission::MODIFY_SELF | UserPermission::USER_ADMIN,
        UserPermission::ANY
    ));
}

#[test]
fn satisfies_matches_bitwise_overlap_formula() {
    let cases: [(i64, i64); 8] = [
        (0, 1),
        (1, 1),
        (3, 2),
        (3, 4),
        (0b101, 0b010),
        (0b101, 0b110),
        (i64::MAX, 1 << 62),
        (0, 0),
    ];
    for (p, r) in cases {
        assert_eq!(
            AuthService::check_permissions(p, r),
            (r & (p | i64::MIN)) != 0
        );
    }
}

#[test]
fn any_of_semantics_not_all_of() {
    // a caller requiring {MODIFY_SELF, USER_ADMIN} is satisfied by a user
    // holding only one of the two
    let required = UserPermission::MODIFY_SELF | UserPermission::USER_ADMIN;
    assert!(AuthService::check_permissions(UserPermission::MODIFY_SELF, required));
    assert!(AuthService::check_permissions(UserPermission::USER_ADMIN, required));
    assert!(!AuthService::check_permissions(UserPermission::SYSTEM_ADMIN, required));
}

#[test]
fn every_user_holds_the_sign_bit_capability() {
    // requiring the sign bit alone is satisfied even by a user with no
    // permissions at all
    assert!(AuthService::check_permissions(0, i64::MIN));
}

#[test]
fn zero_required_mask_is_never_satisfied() {
    assert!(!AuthService::check_permissions(i64::MAX, 0));
    assert!(!AuthService::check_permissions(0, 0));
}

#[test]
fn permission_bit_values() {
    assert_eq!(UserPermission::ANY, -1);
    assert_eq!(UserPermission::MODIFY_SELF, 1);
    assert_eq!(UserPermission::USER_ADMIN, 2);
    assert_eq!(UserPermission::SYSTEM_ADMIN, 4);
    assert_eq!(UserPermission::SETUP, 8);
    assert_eq!(UserPermission::OPERATION, 16);
}

#[test]
fn generic_error_codes() {
    assert_eq!(GenericError::Generic.code(), 0);
    assert_eq!(GenericError::BadRequest.code(), 400);
    assert_eq!(GenericError::Forbidden.code(), 403);
    assert_eq!(GenericError::NotFound.code(), 404);
    assert_eq!(GenericError::Conflict.code(), 409);
    assert_eq!(GenericError::InternalServerError.code(), 500);
}

#[test]
fn content_for_tags_round_trip() {
    let kinds = [
        ContentFor::DisplayOutput,
        ContentFor::SlideType,
        ContentFor::SlideGroup,
        ContentFor::Slide,
        ContentFor::SlideDeck,
        ContentFor::SlideDeckSection,
        ContentFor::SlideDeckSlide,
    ];
    for kind in kinds {
        assert_eq!(ContentFor::from_tag(kind.tag()), Some(kind));
    }
    assert_eq!(ContentFor::DisplayOutput.tag(), "display_output");
    assert_eq!(ContentFor::SlideDeckSlide.tag(), "slide_deck_slide");
    assert_eq!(ContentFor::from_tag("slide_deck_row"), None);
    assert_eq!(ContentFor::from_tag(""), None);
}

#[test]
fn config_defaults() {
    assert_eq!(config::default_host(), "127.0.0.1");
    assert_eq!(config::default_port(), 8080);
    assert!(config::default_cors_allowed_origins().is_empty());
    assert_eq!(config::default_database_file(), "./database.sqlite3");
    assert_eq!(config::default_default_admin_username(), "admin");
    assert_eq!(config::default_default_admin_password(), "admin");
    assert_eq!(config::default_session_max_age(), 60 * 60 * 24 * 365);
    assert_eq!(config::default_static_file_root(), "./client/dist/");
    assert_eq!(config::default_static_file_index(), "index.html");
    assert_eq!(config::default_http_caching_max_age(), 60 * 60 * 24);
    assert_eq!(config::default_database_maintenance_interval(), 60 * 60);
    assert_eq!(config::default_database_quick_checkpoint_interval(), 60);
    assert_eq!(config::default_database_full_checkpoint_interval(), 60 * 5);
}
