use feature_flags::auth::{AuthTokens, UserAuth, UserAuthError};
use feature_flags::response::{Created, FlagCheck};

#[test]
fn a_fresh_registry_authenticates_nobody() {
    let registry = AuthTokens::new();
    assert!(!registry.check_for("u1", "token"));
}

#[test]
fn a_logged_in_user_passes_the_check() {
    let mut registry = AuthTokens::new();
    let token = registry.add_token("u1");
    assert_eq!(token, "token");
    assert!(registry.check_for("u1", &token));
}

#[test]
fn a_wrong_token_fails_the_check() {
    let mut registry = AuthTokens::new();
    registry.add_token("u1");
    assert!(!registry.check_for("u1", "forged"));
    assert!(!registry.check_for("u2", "token"));
}

#[test]
fn logging_in_twice_keeps_the_users_tokens() {
    let mut registry = AuthTokens::new();
    let first = registry.add_token("u1");
    let second = registry.add_token("u1");
    assert_eq!(first, second);
    assert!(registry.check_for("u1", &second));
}

#[test]
fn logging_out_removes_the_users_tokens() {
    let mut registry = AuthTokens::new();
    registry.add_token("u1");
    assert!(registry.remove_token("u1"));
    assert!(!registry.check_for("u1", "token"));
}

#[test]
fn logging_out_a_user_who_never_logged_in_reports_failure() {
    let mut registry = AuthTokens::new();
    assert!(!registry.remove_token("u1"));
    registry.add_token("u1");
    assert!(registry.remove_token("u1"));
    assert!(!registry.remove_token("u1"));
}

#[test]
fn users_are_tracked_independently() {
    let mut registry = AuthTokens::new();
    registry.add_token("u1");
    registry.add_token("u2");
    assert!(registry.remove_token("u1"));
    assert!(!registry.check_for("u1", "token"));
    assert!(registry.check_for("u2", "token"));
}

#[test]
fn auth_errors_name_what_went_wrong() {
    assert_ne!(UserAuthError::NoUserId, UserAuthError::NoAuthToken);
    assert_ne!(UserAuthError::NoAuthToken, UserAuthError::Invalid);
    assert!(matches!(UserAuthError::Invalid, UserAuthError::Invalid));
}

#[test]
fn authentication_requires_a_user_id_first() {
    let registry = AuthTokens::new();
    assert_eq!(
        UserAuth::authenticate(None, Some("token"), &registry),
        Err(UserAuthError::NoUserId)
    );
    assert_eq!(UserAuth::authenticate(None, None, &registry), Err(UserAuthError::NoUserId));
}

#[test]
fn authentication_requires_a_token_second() {
    let registry = AuthTokens::new();
    assert_eq!(UserAuth::authenticate(Some("u1"), None, &registry), Err(UserAuthError::NoAuthToken));
}

#[test]
fn authentication_checks_the_token_against_the_registry() {
    let mut registry = AuthTokens::new();
    assert_eq!(
        UserAuth::authenticate(Some("u1"), Some("token"), &registry),
        Err(UserAuthError::Invalid)
    );
    let token = registry.add_token("u1");
    assert_eq!(UserAuth::authenticate(Some("u1"), Some(&token), &registry), Ok(UserAuth));
    assert_eq!(
        UserAuth::authenticate(Some("u1"), Some("forged"), &registry),
        Err(UserAuthError::Invalid)
    );
    assert_eq!(
        UserAuth::authenticate(Some("u2"), Some(&token), &registry),
        Err(UserAuthError::Invalid)
    );
}

#[test]
fn flag_check_verdicts_carry_their_status() {
    assert_eq!(FlagCheck::get_enabled().enabled, true);
    assert_eq!(FlagCheck::get_disabled().enabled, false);
}

#[test]
fn created_reply_keeps_the_assigned_id() {
    let created = Created::new("0123456789abcdef01234567");
    assert_eq!(created.id, "0123456789abcdef01234567");
}
