//! The authentication gate, login and logout, and per-route authorization.
//!
//! These functions decide; the caller performs what they decide: it reads
//! and writes the session, queries the credential store and appends the
//! audit entries handed back.

use vstd::prelude::*;
use vstd::string::*;
use vstd::utf8::encode_utf8;
use crate::audit::{AuditAction, AuditEntry, opt_view};
use crate::primitives::{phc_accepts, verify_phc};
use crate::role::{Capability, Role};
use crate::text::{has_prefix, starts_with, str_eq};
use crate::user::User;

verus! {

/// Where a refused request is sent.
#[derive(Debug, Clone, Copy, PartialEq, Eq, Structural)]
pub enum Redirect {
    Home,
    Login,
}

impl Redirect {
    pub open spec fn target(self) -> Seq<char> {
        match self {
            Redirect::Home => "/"@,
            Redirect::Login => "/login"@,
        }
    }

    pub fn path(&self) -> (r: &'static str)
        ensures
            r@ == self.target(),
    {
        match self {
            Redirect::Home => "/",
            Redirect::Login => "/login",
        }
    }
}

/// Why a caller is not authenticated.
#[derive(Debug, Clone, Copy, PartialEq, Eq, Structural)]
pub enum AuthError {
    InvalidCredentials,
    NoSession,
    SessionExpired,
}

/// Why an authenticated caller is refused.
#[derive(Debug, Clone, Copy, PartialEq, Eq, Structural)]
pub enum AuthzError {
    Denied(Capability),
}

/// Why the credential store could not answer.
#[derive(Debug, Clone, Copy, PartialEq, Eq, Structural)]
pub enum StoreError {
    Unavailable,
    NotFound,
}

/// The user a lookup found, if any; a failed lookup finds none.
pub open spec fn found_user(lookup: Result<Option<User>, StoreError>) -> Option<User> {
    match lookup {
        Ok(Some(u)) => Some(u),
        _ => None,
    }
}

// ------------------------------------------------ authentication middleware

/// Paths served without a session: the login page and static assets.
pub open spec fn is_public_path(path: Seq<char>) -> bool {
    path == "/login"@ || has_prefix(path, "/static/"@)
}

/// Whether a request for `path`, with the session holding `session_user`,
/// is let through by the authentication middleware.
pub open spec fn gate_admits(path: Seq<char>, session_user: Option<Seq<char>>) -> bool {
    is_public_path(path) || session_user is Some
}

/// What the authentication middleware does with a request.
pub enum GateDecision {
    /// A public path: handle it as it is.
    Bypass,
    /// An authenticated request: handle it with this username attached.
    Admit(String),
    /// No user in the session: redirect to the login page.
    RedirectToLogin,
}

/// Decides a request from its path and the username its session holds.
/// The session is only read, never changed.
pub fn auth_middleware(path: &str, session_user: Option<String>) -> (r: GateDecision)
    ensures
        is_public_path(path@) ==> r is Bypass,
        !is_public_path(path@) ==> match session_user {
            Some(u) => r matches GateDecision::Admit(v) && v@ == u@,
            None => r is RedirectToLogin,
        },
        !(r is RedirectToLogin) == gate_admits(path@, opt_view(session_user)),
{
    if str_eq(path, "/login") || starts_with(path, "/static/") {
        return GateDecision::Bypass;
    }
    match session_user {
        Some(u) => GateDecision::Admit(u),
        None => GateDecision::RedirectToLogin,
    }
}

// ---------------------------------------------------------- login, logout

/// The submitted login form.
pub struct LoginForm {
    pub username: String,
    pub password: String,
}

/// The login page, with an error where a login was refused.
pub struct LoginTemplate {
    pub error: Option<String>,
}

/// The one message for every refused login, so that a caller cannot tell
/// an unknown username from a wrong password.
pub open spec fn invalid_credentials_message() -> Seq<char> {
    "Invalid username or password"@
}

pub fn login_page() -> (r: LoginTemplate)
    ensures
        r.error is None,
{
    LoginTemplate { error: None }
}

/// Whether a login with `password` succeeds against the user a lookup found.
pub open spec fn login_accepts(found: Option<User>, password: Seq<char>) -> bool {
    found matches Some(u) && phc_accepts(encode_utf8(password), u.password_hash@)
}

/// The username a login stores in the session: the submitted one, where
/// the login succeeds.
pub open spec fn login_session(username: Seq<char>, found: Option<User>, password: Seq<char>) -> Option<
    Seq<char>,
> {
    if login_accepts(found, password) {
        Some(username)
    } else {
        None
    }
}

/// What a login attempt comes to.
pub enum LoginOutcome {
    /// Store `username` in a new session, append `audit`, redirect home.
    Accepted { username: String, audit: AuditEntry },
    /// Show `page`; append `audit` where there is one.
    Rejected { error: AuthError, page: LoginTemplate, audit: Option<AuditEntry> },
}

/// Whether `r` is the outcome of a login by `username` against the user a
/// lookup found, where `accepted` says whether the password matched.
pub open spec fn login_reply(r: LoginOutcome, username: Seq<char>, found: Option<User>, accepted: bool) -> bool {
    match found {
        None => {
            &&& r matches LoginOutcome::Rejected { error, page, audit }
            &&& error == AuthError::InvalidCredentials
            &&& opt_view(page.error) == Some(invalid_credentials_message())
            &&& audit is None
        },
        Some(u) => if accepted {
            &&& r matches LoginOutcome::Accepted { username: name, audit }
            &&& name@ == username
            &&& audit.records(
                Some(u.id),
                username,
                AuditAction::Login,
                None,
                Some("User logged in successfully"@),
            )
        } else {
            &&& r matches LoginOutcome::Rejected { error, page, audit }
            &&& error == AuthError::InvalidCredentials
            &&& opt_view(page.error) == Some(invalid_credentials_message())
            &&& (audit matches Some(e) && e.records(
                None,
                username,
                AuditAction::LoginFailed,
                None,
                Some("Failed login attempt"@),
            ))
        },
    }
}

fn refused_login(audit: Option<AuditEntry>) -> (r: LoginOutcome)
    ensures
        ({
            &&& r matches LoginOutcome::Rejected { error, page, audit: a }
            &&& error == AuthError::InvalidCredentials
            &&& opt_view(page.error) == Some(invalid_credentials_message())
            &&& a == audit
        }),
{
    proof {
        reveal_strlit("Invalid username or password");
    }
    LoginOutcome::Rejected {
        error: AuthError::InvalidCredentials,
        page: LoginTemplate { error: Some(String::from_str("Invalid username or password")) },
        audit,
    }
}

/// The outcome of a login by `form.username` once the password has been
/// checked against the user found: `password_ok` is that check.
pub fn login_outcome(form: LoginForm, found: Option<User>, password_ok: bool) -> (r: LoginOutcome)
    ensures
        login_reply(r, form.username@, found, password_ok),
{
    match found {
        None => refused_login(None),
        Some(u) => {
            if password_ok {
                let audit = AuditEntry::new(
                    Some(u.id),
                    form.username.clone(),
                    AuditAction::Login,
                    None,
                    Some(String::from_str("User logged in successfully")),
                );
                LoginOutcome::Accepted { username: form.username, audit }
            } else {
                let audit = AuditEntry::new(
                    None,
                    form.username,
                    AuditAction::LoginFailed,
                    None,
                    Some(String::from_str("Failed login attempt")),
                );
                refused_login(Some(audit))
            }
        },
    }
}

/// The user a lookup of `username` found, where its name is exactly
/// `username`: names are compared without case folding, whatever collation
/// the store uses.
pub open spec fn matching_user(lookup: Result<Option<User>, StoreError>, username: Seq<char>) -> Option<User> {
    match found_user(lookup) {
        Some(u) => if u.username@ == username {
            Some(u)
        } else {
            None
        },
        None => None,
    }
}

/// A login attempt against what the lookup of `form.username` returned. A
/// failed lookup, or a row under another name, is refused like an unknown
/// user, and none of these is recorded; a wrong password is recorded without
/// the user's id.
pub fn login(form: LoginForm, lookup: Result<Option<User>, StoreError>) -> (r: LoginOutcome)
    ensures
        login_reply(
            r,
            form.username@,
            matching_user(lookup, form.username@),
            login_accepts(matching_user(lookup, form.username@), form.password@),
        ),
        r is Accepted <==> login_session(form.username@, matching_user(lookup, form.username@), form.password@) is Some,
        r matches LoginOutcome::Accepted { username, .. } ==> login_session(
            form.username@,
            matching_user(lookup, form.username@),
            form.password@,
        ) == Some(username@),
{
    let found = match lookup {
        Ok(Some(u)) => u,
        _ => return refused_login(None),
    };
    if !str_eq(found.username.as_str(), form.username.as_str()) {
        return refused_login(None);
    }
    let ok = verify_phc(form.password.as_str().as_bytes(), found.password_hash.as_str());
    login_outcome(form, Some(found), ok)
}

/// A login that succeeds leaves its username in the session, and with that
/// session every later request is let through.
pub proof fn lemma_accepted_login_passes_gate(
    username: Seq<char>,
    password: Seq<char>,
    found: Option<User>,
    path: Seq<char>,
)
    requires
        login_accepts(found, password),
    ensures
        login_session(username, found, password) == Some(username),
        gate_admits(path, login_session(username, found, password)),
{
}

/// What logging out comes to: the entry to append, if any, and the redirect.
pub struct LogoutPlan {
    pub audit: Option<AuditEntry>,
    pub redirect: Redirect,
}

/// Logging out of a session holding `session_user`, given what the lookup
/// of that username returned. The session is destroyed and the caller sent
/// to the login page whatever the lookup gave; the event is recorded only
/// where the user was found.
pub fn logout(session_user: Option<String>, lookup: Result<Option<User>, StoreError>) -> (r: LogoutPlan)
    ensures
        r.redirect == Redirect::Login,
        match (session_user, found_user(lookup)) {
            (Some(name), Some(u)) => r.audit matches Some(e) && e.records(
                Some(u.id),
                name@,
                AuditAction::Logout,
                None,
                Some("User logged out"@),
            ),
            _ => r.audit is None,
        },
{
    let audit = match (session_user, lookup) {
        (Some(name), Ok(Some(u))) => Some(
            AuditEntry::new(
                Some(u.id),
                name,
                AuditAction::Logout,
                None,
                Some(String::from_str("User logged out")),
            ),
        ),
        _ => None,
    };
    LogoutPlan { audit, redirect: Redirect::Login }
}

// ----------------------------------------------------------- authorization

/// The capability a route requires of an authenticated caller, if any.
pub open spec fn route_capability(path: Seq<char>) -> Option<Capability> {
    if path == "/users"@ {
        Some(Capability::ManageUsers)
    } else if path == "/audit"@ {
        Some(Capability::ViewAudit)
    } else if path == "/sysinfo"@ || path == "/sysinfo/live"@ {
        Some(Capability::ViewSysinfo)
    } else if path == "/crypto"@ || path == "/crypto/encrypt"@ || path == "/crypto/decrypt"@ {
        Some(Capability::UseCrypto)
    } else {
        None
    }
}

pub fn required_capability(path: &str) -> (r: Option<Capability>)
    ensures
        r == route_capability(path@),
{
    if str_eq(path, "/users") {
        Some(Capability::ManageUsers)
    } else if str_eq(path, "/audit") {
        Some(Capability::ViewAudit)
    } else if str_eq(path, "/sysinfo") || str_eq(path, "/sysinfo/live") {
        Some(Capability::ViewSysinfo)
    } else if str_eq(path, "/crypto") || str_eq(path, "/crypto/encrypt") || str_eq(
        path,
        "/crypto/decrypt",
    ) {
        Some(Capability::UseCrypto)
    } else {
        None
    }
}

/// The details recorded when `cap` is refused.
pub open spec fn denial_details(cap: Capability) -> Seq<char> {
    match cap {
        Capability::ManageUsers => "Attempted to access users page without permission"@,
        Capability::ViewAudit => "Attempted to access audit logs without permission"@,
        Capability::ViewSysinfo => "Attempted to access system info without permission"@,
        Capability::UseCrypto => "Attempted to use the crypto utility without permission"@,
    }
}

fn denial_text(cap: Capability) -> (r: String)
    ensures
        r@ == denial_details(cap),
{
    match cap {
        Capability::ManageUsers => String::from_str("Attempted to access users page without permission"),
        Capability::ViewAudit => String::from_str("Attempted to access audit logs without permission"),
        Capability::ViewSysinfo => String::from_str("Attempted to access system info without permission"),
        Capability::UseCrypto => String::from_str("Attempted to use the crypto utility without permission"),
    }
}

/// How a request for a protected route is settled.
#[derive(Debug, Clone, Copy, PartialEq, Eq, Structural)]
pub enum Verdict {
    Proceed,
    ToLogin,
    Deny(Capability),
}

/// The verdict on a request for `path` by the user the session resolves to.
/// Failing closed: no user, or a username that no longer maps to a user,
/// goes to the login page.
pub open spec fn verdict(current: Option<User>, path: Seq<char>) -> Verdict {
    match current {
        None => Verdict::ToLogin,
        Some(u) => match route_capability(path) {
            Some(cap) => if u.role_spec().grants(cap) {
                Verdict::Proceed
            } else {
                Verdict::Deny(cap)
            },
            None => Verdict::Proceed,
        },
    }
}

/// The result of authorizing a request.
pub enum Access {
    /// Go on with the request as this user.
    Granted(User),
    /// Redirect to the login page.
    RedirectToLogin,
    /// Append `audit` and redirect; the route is never shown as forbidden.
    Denied { error: AuthzError, redirect: Redirect, audit: AuditEntry },
}

/// Whether `r` settles a request for `path` by the user the session
/// resolves to: a refusal sends the caller home with one access-denied entry
/// naming the path.
pub open spec fn access_reply(r: Access, current: Option<User>, path: Seq<char>) -> bool {
    match verdict(current, path) {
        Verdict::Proceed => r matches Access::Granted(u) && current == Some(u),
        Verdict::ToLogin => r is RedirectToLogin,
        Verdict::Deny(cap) => {
            &&& current matches Some(u)
            &&& r matches Access::Denied { error, redirect, audit }
            &&& error == AuthzError::Denied(cap)
            &&& redirect == Redirect::Home
            &&& audit.records(
                Some(u.id),
                u.username@,
                AuditAction::AccessDenied,
                Some(path),
                Some(denial_details(cap)),
            )
        },
    }
}

/// Authorizes a request for `path` by the user the session resolves to.
pub fn authorize(current: Option<User>, path: &str) -> (r: Access)
    ensures
        access_reply(r, current, path@),
{
    let u = match current {
        Some(u) => u,
        None => return Access::RedirectToLogin,
    };
    match required_capability(path) {
        Some(cap) => {
            if u.role().permits(cap) {
                Access::Granted(u)
            } else {
                let audit = AuditEntry::new(
                    Some(u.id),
                    u.username,
                    AuditAction::AccessDenied,
                    Some(String::from_str(path)),
                    Some(denial_text(cap)),
                );
                Access::Denied { error: AuthzError::Denied(cap), redirect: Redirect::Home, audit }
            }
        },
        None => Access::Granted(u),
    }
}

/// A viewer asking for the user list or the audit log is refused: the
/// request is sent home, and exactly one access-denied entry is handed back,
/// naming the viewer and the page asked for.
pub proof fn lemma_viewer_refused_admin_pages(u: User, path: Seq<char>, r: Access)
    requires
        u.role_spec() == Role::Viewer,
        path == "/users"@ || path == "/audit"@,
        access_reply(r, Some(u), path),
    ensures
        route_capability(path) matches Some(cap) && verdict(Some(u), path) == Verdict::Deny(cap),
        r matches Access::Denied { redirect, audit, .. } && redirect == Redirect::Home
            && audit.records(
            Some(u.id),
            u.username@,
            AuditAction::AccessDenied,
            Some(path),
            Some(denial_details(route_capability(path)->0)),
        ),
{
    reveal_strlit("/users");
    reveal_strlit("/audit");
    assert("/users"@[1] != "/audit"@[1]);
}

} // verus!
