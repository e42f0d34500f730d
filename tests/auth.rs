use argon2::password_hash::{PasswordHasher, SaltString};
use rust_dashboard::audit::AuditAction;
use rust_dashboard::auth::{
    auth_middleware, authorize, login, login_outcome, login_page, logout, required_capability,
    Access, AuthError, AuthzError, GateDecision, LoginForm, LoginOutcome, Redirect, StoreError,
};
use rust_dashboard::crypto::{encrypt, EncryptForm};
use rust_dashboard::role::Capability;
use rust_dashboard::user::User;
use base64::Engine;

fn phc(password: &str) -> String {
    let params = argon2::Params::new(8, 1, 1, None).unwrap();
    let a = argon2::Argon2::new(argon2::Algorithm::Argon2id, argon2::Version::V0x13, params);
    let salt = SaltString::from_b64("c2FsdHNhbHRzYWx0").unwrap();
    a.hash_password(password.as_bytes(), &salt).unwrap().to_string()
}

fn user(id: i32, name: &str, password: &str, role: &str) -> User {
    User::new(id, name.to_string(), phc(password), role.to_string())
}

fn form(username: &str, password: &str) -> LoginForm {
    LoginForm { username: username.to_string(), password: password.to_string() }
}

#[test]
fn middleware_lets_public_paths_through() {
    assert!(matches!(auth_middleware("/login", None), GateDecision::Bypass));
    assert!(matches!(auth_middleware("/static/app.css", None), GateDecision::Bypass));
    assert!(matches!(auth_middleware("/static/", Some("a".to_string())), GateDecision::Bypass));
}

#[test]
fn middleware_redirects_without_session() {
    assert!(matches!(auth_middleware("/", None), GateDecision::RedirectToLogin));
    assert!(matches!(auth_middleware("/static", None), GateDecision::RedirectToLogin));
    assert!(matches!(auth_middleware("/login/", None), GateDecision::RedirectToLogin));
    assert!(matches!(auth_middleware("/users", None), GateDecision::RedirectToLogin));
}

#[test]
fn middleware_attaches_session_user() {
    match auth_middleware("/profile", Some("alice".to_string())) {
        GateDecision::Admit(u) => assert_eq!(u, "alice"),
        _ => panic!("expected the request to be admitted"),
    }
}

#[test]
fn login_page_has_no_error() {
    assert!(login_page().error.is_none());
}

#[test]
fn login_with_correct_password_is_accepted() {
    let alice = user(1, "alice", "wonderland", "user");
    match login(form("alice", "wonderland"), Ok(Some(alice))) {
        LoginOutcome::Accepted { username, audit } => {
            assert_eq!(username, "alice");
            assert_eq!(audit.action, AuditAction::Login);
            assert_eq!(audit.user_id, Some(1));
            assert_eq!(audit.details.as_deref(), Some("User logged in successfully"));
            assert!(matches!(auth_middleware("/", Some(username)), GateDecision::Admit(_)));
        }
        _ => panic!("expected the login to be accepted"),
    }
}

#[test]
fn login_with_wrong_password_records_one_failure() {
    let alice = user(1, "alice", "wonderland", "user");
    match login(form("alice", "looking-glass"), Ok(Some(alice))) {
        LoginOutcome::Rejected { error, page, audit } => {
            assert_eq!(error, AuthError::InvalidCredentials);
            assert_eq!(page.error.as_deref(), Some("Invalid username or password"));
            let e = audit.expect("one login_failed entry");
            assert_eq!(e.action, AuditAction::LoginFailed);
            assert_eq!(e.user_id, None);
            assert_eq!(e.username, "alice");
            assert_eq!(e.details.as_deref(), Some("Failed login attempt"));
        }
        _ => panic!("expected the login to be refused"),
    }
}

#[test]
fn login_unknown_user_or_store_failure_is_refused_alike() {
    for lookup in [Ok(None), Err(StoreError::Unavailable)] {
        match login(form("nobody", "x"), lookup) {
            LoginOutcome::Rejected { error, page, audit } => {
                assert_eq!(error, AuthError::InvalidCredentials);
                assert_eq!(page.error.as_deref(), Some("Invalid username or password"));
                assert!(audit.is_none());
            }
            _ => panic!("expected the login to be refused"),
        }
    }
}

#[test]
fn login_against_unparsable_hash_is_refused() {
    let broken = User::new(5, "eve".to_string(), "not a phc string".to_string(), "user".to_string());
    assert!(matches!(login(form("eve", "x"), Ok(Some(broken))), LoginOutcome::Rejected { .. }));
}

#[test]
fn login_outcome_follows_the_verdict() {
    let u = User::new(2, "bob".to_string(), "h".to_string(), "admin".to_string());
    assert!(matches!(login_outcome(form("bob", "x"), Some(u), true), LoginOutcome::Accepted { .. }));
    let u = User::new(2, "bob".to_string(), "h".to_string(), "admin".to_string());
    assert!(matches!(login_outcome(form("bob", "x"), Some(u), false), LoginOutcome::Rejected { audit: Some(_), .. }));
    assert!(matches!(login_outcome(form("bob", "x"), None, true), LoginOutcome::Rejected { audit: None, .. }));
}

#[test]
fn logout_records_known_user_and_always_redirects() {
    let plan = logout(Some("alice".to_string()), Ok(Some(user(1, "alice", "p", "user"))));
    assert_eq!(plan.redirect, Redirect::Login);
    assert_eq!(plan.redirect.path(), "/login");
    let e = plan.audit.expect("a logout entry");
    assert_eq!(e.action, AuditAction::Logout);
    assert_eq!(e.user_id, Some(1));
    assert_eq!(e.details.as_deref(), Some("User logged out"));
    let plan = logout(Some("alice".to_string()), Err(StoreError::Unavailable));
    assert!(plan.audit.is_none());
    assert_eq!(plan.redirect, Redirect::Login);
    assert!(logout(None, Ok(None)).audit.is_none());
}

#[test]
fn route_capabilities() {
    assert_eq!(required_capability("/users"), Some(Capability::ManageUsers));
    assert_eq!(required_capability("/audit"), Some(Capability::ViewAudit));
    assert_eq!(required_capability("/sysinfo/live"), Some(Capability::ViewSysinfo));
    assert_eq!(required_capability("/crypto/decrypt"), Some(Capability::UseCrypto));
    assert_eq!(required_capability("/profile"), None);
}

#[test]
fn viewer_is_refused_admin_pages_with_one_entry() {
    for (path, cap) in [("/users", Capability::ManageUsers), ("/audit", Capability::ViewAudit)] {
        let viewer = User::new(9, "vic".to_string(), "h".to_string(), "viewer".to_string());
        match authorize(Some(viewer), path) {
            Access::Denied { error, redirect, audit } => {
                assert_eq!(error, AuthzError::Denied(cap));
                assert_eq!(redirect.path(), "/");
                assert_eq!(audit.action, AuditAction::AccessDenied);
                assert_eq!(audit.user_id, Some(9));
                assert_eq!(audit.username, "vic");
                assert_eq!(audit.resource.as_deref(), Some(path));
            }
            _ => panic!("expected the viewer to be refused"),
        }
    }
}

#[test]
fn authorize_grants_and_fails_closed() {
    let admin = User::new(1, "root".to_string(), "h".to_string(), "admin".to_string());
    assert!(matches!(authorize(Some(admin), "/audit"), Access::Granted(_)));
    assert!(matches!(authorize(None, "/users"), Access::RedirectToLogin));
    let viewer = User::new(2, "v".to_string(), "h".to_string(), "viewer".to_string());
    match authorize(Some(viewer), "/crypto") {
        Access::Denied { audit, .. } => assert_eq!(
            audit.details.as_deref(),
            Some("Attempted to use the crypto utility without permission")
        ),
        _ => panic!("expected a refusal"),
    }
    let viewer = User::new(2, "v".to_string(), "h".to_string(), "viewer".to_string());
    assert!(matches!(authorize(Some(viewer), "/profile"), Access::Granted(_)));
}

#[test]
fn alice_session_scenario() {
    let alice = user(1, "alice", "wonderland", "User");
    let session_user = match login(form("alice", "wonderland"), Ok(Some(alice))) {
        LoginOutcome::Accepted { username, .. } => username,
        _ => panic!("expected the login to be accepted"),
    };
    assert!(matches!(auth_middleware("/users", Some(session_user.clone())), GateDecision::Admit(_)));
    let alice = user(1, "alice", "wonderland", "User");
    match authorize(Some(alice), "/users") {
        Access::Denied { redirect, audit, .. } => {
            assert_eq!(redirect, Redirect::Home);
            assert_eq!(audit.action, AuditAction::AccessDenied);
            assert_eq!(audit.resource.as_deref(), Some("/users"));
        }
        _ => panic!("expected /users to be refused"),
    }
    let alice = user(1, "alice", "wonderland", "User");
    assert!(matches!(authorize(Some(alice), "/crypto/encrypt"), Access::Granted(_)));
    let reply = encrypt(
        session_user,
        Some(1),
        &EncryptForm { plaintext: "secret".to_string(), password: "hunter2".to_string() },
    );
    let decoded = base64::engine::general_purpose::STANDARD.decode(&reply.page.encrypted_text).unwrap();
    assert!(decoded.len() >= 16);
    assert_eq!(reply.audit.action, AuditAction::Encrypt);
    assert!(reply.audit.details.unwrap().contains("length: 6"));
}

#[test]
fn login_refuses_a_row_under_another_case() {
    let alice = user(1, "alice", "wonderland", "user");
    match login(form("ALICE", "wonderland"), Ok(Some(alice))) {
        LoginOutcome::Rejected { error, audit, .. } => {
            assert_eq!(error, AuthError::InvalidCredentials);
            assert!(audit.is_none());
        }
        _ => panic!("expected the login to be refused"),
    }
}
