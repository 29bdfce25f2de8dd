//! End-to-end flows over the library: registration, login, logout, the
//! authentication gate and the CSRF guard.

use kore_douyo::auth::errors::AuthError;
use kore_douyo::auth::handlers::{login, logout, register, LoginRequest, RegisterRequest};
use kore_douyo::auth::middleware::session_auth_middleware;
use kore_douyo::config::AppConfig;
use kore_douyo::cookie::parse_session_id;
use kore_douyo::csrf::middleware::{csrf_protection_middleware, CsrfError, HttpMethod};
use kore_douyo::csrf_token_for_request;
use kore_douyo::AppState;

fn fresh_state() -> AppState {
    AppState::new(AppConfig::default())
}

fn register_req(email: &str, password: &str) -> RegisterRequest {
    RegisterRequest {
        email: email.to_string(),
        password: password.to_string(),
    }
}

fn login_req(email: &str, password: &str) -> LoginRequest {
    LoginRequest {
        email: email.to_string(),
        password: password.to_string(),
    }
}

#[test]
fn register_then_duplicate_email() {
    let mut state = fresh_state();
    let first = register(&mut state, &register_req("a@x.com", "pw1"));
    assert!(first.is_ok());
    let second = register(&mut state, &register_req("a@x.com", "other"));
    assert_eq!(second.unwrap_err(), AuthError::EmailAlreadyExists);
}

#[test]
fn duplicate_email_maps_to_conflict_status() {
    let mut state = fresh_state();
    register(&mut state, &register_req("a@x.com", "pw1")).unwrap();
    let err = register(&mut state, &register_req("a@x.com", "pw2")).unwrap_err();
    assert_eq!(err.status_code(), 409);
    assert_eq!(err.error_message(), "Email already exists");
}

#[test]
fn login_does_not_disclose_account_existence() {
    let mut state = fresh_state();
    register(&mut state, &register_req("known@x.com", "right-password")).unwrap();
    let unknown = login(&mut state, &login_req("unknown@x.com", "whatever")).unwrap_err();
    let wrong_pw = login(&mut state, &login_req("known@x.com", "wrong-password")).unwrap_err();
    assert_eq!(unknown, AuthError::InvalidCredentials);
    assert_eq!(wrong_pw, AuthError::InvalidCredentials);
    assert_eq!(unknown.status_code(), wrong_pw.status_code());
    assert_eq!(unknown.error_message(), wrong_pw.error_message());
    assert_eq!(unknown.status_code(), 401);
}

#[test]
fn login_with_correct_password_succeeds() {
    let mut state = fresh_state();
    register(&mut state, &register_req("a@x.com", "pw1")).unwrap();
    let cookie = login(&mut state, &login_req("a@x.com", "pw1")).unwrap();
    assert!(cookie.starts_with("session_id="));
}

#[test]
fn login_cookie_authenticates_to_the_right_user() {
    let mut state = fresh_state();
    register(&mut state, &register_req("a@x.com", "pw1")).unwrap();
    register(&mut state, &register_req("b@x.com", "pw2")).unwrap();
    let cookie = login(&mut state, &login_req("b@x.com", "pw2")).unwrap();
    let identity = session_auth_middleware(&state, Some(cookie.as_str())).unwrap();
    assert_eq!(identity.user.email, "b@x.com");
}

#[test]
fn gate_fails_without_cookie_header() {
    let state = fresh_state();
    let err = session_auth_middleware(&state, None).unwrap_err();
    assert_eq!(err, AuthError::MissingCookieHeader);
    assert_eq!(err.status_code(), 401);
    assert_eq!(err.error_message(), "Cookie header not found.");
}

#[test]
fn gate_fails_without_session_id_pair() {
    let state = fresh_state();
    let err = session_auth_middleware(&state, Some("theme=dark; lang=en")).unwrap_err();
    assert_eq!(err, AuthError::MissingSessionId);
}

#[test]
fn gate_fails_for_unknown_session() {
    let state = fresh_state();
    let err = session_auth_middleware(&state, Some("session_id=not-a-session")).unwrap_err();
    assert_eq!(err, AuthError::NotLogined);
}

#[test]
fn logout_invalidates_the_cookie() {
    let mut state = fresh_state();
    register(&mut state, &register_req("a@x.com", "pw1")).unwrap();
    let cookie = login(&mut state, &login_req("a@x.com", "pw1")).unwrap();
    assert!(session_auth_middleware(&state, Some(cookie.as_str())).is_ok());
    let clear = logout(&mut state, Some(cookie.as_str()));
    assert_eq!(
        clear,
        "session_id=; HttpOnly; Secure; SameSite=Lax; Path=/; Max-Age=0"
    );
    let err = session_auth_middleware(&state, Some(cookie.as_str())).unwrap_err();
    assert_eq!(err, AuthError::NotLogined);
}

#[test]
fn logout_without_a_session_still_clears() {
    let mut state = fresh_state();
    let clear = logout(&mut state, None);
    assert_eq!(
        clear,
        "session_id=; HttpOnly; Secure; SameSite=Lax; Path=/; Max-Age=0"
    );
    let clear_again = logout(&mut state, Some("session_id=gone"));
    assert!(clear_again.ends_with("Max-Age=0"));
}

#[test]
fn logout_twice_is_idempotent() {
    let mut state = fresh_state();
    register(&mut state, &register_req("a@x.com", "pw1")).unwrap();
    let cookie = login(&mut state, &login_req("a@x.com", "pw1")).unwrap();
    logout(&mut state, Some(cookie.as_str()));
    logout(&mut state, Some(cookie.as_str()));
    let err = session_auth_middleware(&state, Some(cookie.as_str())).unwrap_err();
    assert_eq!(err, AuthError::NotLogined);
}

#[test]
fn csrf_guard_rejects_mutating_request_without_token() {
    let mut state = fresh_state();
    let cookie = register(&mut state, &register_req("a@x.com", "pw1")).unwrap();
    let err =
        csrf_protection_middleware(&state, HttpMethod::Post, None, Some(cookie.as_str()))
            .unwrap_err();
    assert_eq!(err, CsrfError::MissingToken);
    assert_eq!(err.status_code(), 400);
}

#[test]
fn csrf_guard_rejects_token_of_another_session() {
    let mut state = fresh_state();
    register(&mut state, &register_req("a@x.com", "pw1")).unwrap();
    let cookie_one = login(&mut state, &login_req("a@x.com", "pw1")).unwrap();
    let cookie_two = login(&mut state, &login_req("a@x.com", "pw1")).unwrap();
    let token_two = csrf_token_for_request(&state, Some(cookie_two.as_str())).unwrap();
    let err = csrf_protection_middleware(
        &state,
        HttpMethod::Post,
        Some(token_two.as_str()),
        Some(cookie_one.as_str()),
    )
    .unwrap_err();
    assert_eq!(err, CsrfError::TokenMismatch);
    assert_eq!(err.status_code(), 403);
}

#[test]
fn csrf_guard_accepts_own_token() {
    let mut state = fresh_state();
    let cookie = register(&mut state, &register_req("a@x.com", "pw1")).unwrap();
    let token = csrf_token_for_request(&state, Some(cookie.as_str())).unwrap();
    let ok = csrf_protection_middleware(
        &state,
        HttpMethod::Post,
        Some(token.as_str()),
        Some(cookie.as_str()),
    );
    assert_eq!(ok, Ok(()));
}

#[test]
fn csrf_guard_rejects_unknown_session_as_unauthorized() {
    let state = fresh_state();
    let err = csrf_protection_middleware(
        &state,
        HttpMethod::Post,
        Some("sometoken"),
        Some("session_id=unknown"),
    )
    .unwrap_err();
    assert_eq!(err, CsrfError::SessionNotFound);
    assert_eq!(err.status_code(), 401);
}

#[test]
fn csrf_guard_never_rejects_read_only_requests() {
    let state = fresh_state();
    for method in [HttpMethod::Get, HttpMethod::Head, HttpMethod::Options] {
        assert_eq!(csrf_protection_middleware(&state, method, None, None), Ok(()));
        assert_eq!(
            csrf_protection_middleware(&state, method, Some("junk"), Some("junk")),
            Ok(())
        );
        assert_eq!(
            csrf_protection_middleware(&state, method, None, Some("session_id=gone")),
            Ok(())
        );
    }
}

#[test]
fn csrf_guard_checks_every_mutating_method() {
    let mut state = fresh_state();
    let cookie = register(&mut state, &register_req("a@x.com", "pw1")).unwrap();
    for method in [
        HttpMethod::Post,
        HttpMethod::Put,
        HttpMethod::Patch,
        HttpMethod::Delete,
    ] {
        let err = csrf_protection_middleware(&state, method, None, Some(cookie.as_str()))
            .unwrap_err();
        assert_eq!(err, CsrfError::MissingToken);
    }
}

#[test]
fn register_render_and_mutate_scenario() {
    let mut state = fresh_state();
    let cookie = register(&mut state, &register_req("a@x.com", "pw1")).unwrap();
    assert!(cookie.starts_with("session_id="));
    let embedded = csrf_token_for_request(&state, Some(cookie.as_str()));
    let token = embedded.expect("a valid session cookie must expose its token to the page");
    let rejected =
        csrf_protection_middleware(&state, HttpMethod::Post, None, Some(cookie.as_str()));
    assert_eq!(rejected.unwrap_err().status_code(), 400);
    let passed = csrf_protection_middleware(
        &state,
        HttpMethod::Post,
        Some(token.as_str()),
        Some(cookie.as_str()),
    );
    assert_eq!(passed, Ok(()));
}

#[test]
fn concurrent_logins_yield_independent_sessions() {
    let mut state = fresh_state();
    register(&mut state, &register_req("a@x.com", "pw1")).unwrap();
    let cookie_one = login(&mut state, &login_req("a@x.com", "pw1")).unwrap();
    let cookie_two = login(&mut state, &login_req("a@x.com", "pw1")).unwrap();
    let uuid_one = parse_session_id(cookie_one.as_str()).unwrap().to_string();
    let uuid_two = parse_session_id(cookie_two.as_str()).unwrap().to_string();
    assert_ne!(uuid_one, uuid_two);
    let token_one = csrf_token_for_request(&state, Some(cookie_one.as_str())).unwrap();
    let token_two = csrf_token_for_request(&state, Some(cookie_two.as_str())).unwrap();
    assert_ne!(token_one, token_two);
    // revoking the first leaves the second fully valid
    logout(&mut state, Some(cookie_one.as_str()));
    assert!(session_auth_middleware(&state, Some(cookie_one.as_str())).is_err());
    assert!(session_auth_middleware(&state, Some(cookie_two.as_str())).is_ok());
    // bulk revocation removes the rest
    let identity = session_auth_middleware(&state, Some(cookie_two.as_str())).unwrap();
    state.sessions.delete_by_user_id(identity.user.id);
    assert!(session_auth_middleware(&state, Some(cookie_two.as_str())).is_err());
}

#[test]
fn gate_resolution_error_statuses_are_distinct() {
    assert_eq!(AuthError::MissingCookieHeader.status_code(), 401);
    assert_eq!(AuthError::MissingSessionId.status_code(), 401);
    assert_eq!(AuthError::NotLogined.status_code(), 401);
    assert_eq!(AuthError::UserNotFound.status_code(), 404);
    assert_eq!(AuthError::InvalidCredentials.status_code(), 401);
    assert_eq!(AuthError::EmailAlreadyExists.status_code(), 409);
    assert_eq!(AuthError::DatabaseError.status_code(), 500);
    assert_eq!(AuthError::BcryptError.status_code(), 500);
    assert_eq!(AuthError::RepositoryError.status_code(), 500);
    assert_eq!(AuthError::InternalError.status_code(), 500);
}

#[test]
fn infrastructure_errors_share_one_generic_message() {
    assert_eq!(AuthError::DatabaseError.error_message(), "Internal server error");
    assert_eq!(AuthError::BcryptError.error_message(), "Internal server error");
    assert_eq!(AuthError::RepositoryError.error_message(), "Internal server error");
    assert_eq!(AuthError::InternalError.error_message(), "Internal server error");
    assert_eq!(AuthError::NotLogined.error_message(), "Not Logined");
    assert_eq!(AuthError::MissingSessionId.error_message(), "Invalid session id");
    assert_eq!(AuthError::UserNotFound.error_message(), "User not found");
    assert_eq!(AuthError::InvalidCredentials.error_message(), "Invalid credentials");
}
