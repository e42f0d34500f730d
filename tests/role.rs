use rust_dashboard::role::{Capability, Role};
use rust_dashboard::user::{User, UserDisplay, UsersTemplate};

#[test]
fn role_from_str_ignores_case() {
    assert_eq!(Role::from_str("admin"), Role::Admin);
    assert_eq!(Role::from_str("ADMIN"), Role::Admin);
    assert_eq!(Role::from_str("Viewer"), Role::Viewer);
    assert_eq!(Role::from_str("user"), Role::User);
}

#[test]
fn role_from_str_defaults_unknown_tags_to_user() {
    assert_eq!(Role::from_str("superuser"), Role::User);
    assert_eq!(Role::from_str(""), Role::User);
    assert_eq!(Role::from_lowercase("ADMIN"), Role::User);
}

#[test]
fn role_as_str_gives_lowercase_tags() {
    assert_eq!(Role::Admin.as_str(), "admin");
    assert_eq!(Role::User.as_str(), "user");
    assert_eq!(Role::Viewer.as_str(), "viewer");
}

#[test]
fn capability_table() {
    assert!(Role::Admin.can_access_sysinfo());
    assert!(Role::Admin.can_access_crypto());
    assert!(Role::Admin.can_access_users());
    assert!(Role::Admin.can_access_audit());
    assert!(Role::User.can_access_sysinfo());
    assert!(Role::User.can_access_crypto());
    assert!(!Role::User.can_access_users());
    assert!(!Role::User.can_access_audit());
    assert!(!Role::Viewer.can_access_sysinfo());
    assert!(!Role::Viewer.can_access_crypto());
    assert!(!Role::Viewer.can_access_users());
    assert!(!Role::Viewer.can_access_audit());
    assert!(Role::User.permits(Capability::UseCrypto));
    assert!(!Role::Viewer.permits(Capability::ViewAudit));
}

#[test]
fn user_role_reads_stored_tag() {
    let u = User::new(7, "carol".to_string(), "x".to_string(), "Admin".to_string());
    assert_eq!(u.role(), Role::Admin);
    assert_eq!(u.role_str(), "Admin");
    let legacy = User::new(8, "dave".to_string(), "x".to_string(), "operator".to_string());
    assert_eq!(legacy.role(), Role::User);
}

#[test]
fn user_display_rows() {
    let u = User::new(3, "erin".to_string(), "x".to_string(), "VIEWER".to_string());
    let row = UserDisplay::from_user(&u);
    assert_eq!(row.id, 3);
    assert_eq!(row.username, "erin");
    assert_eq!(row.role, "viewer");
    assert_eq!(row.created_at, "N/A");
    let page = UsersTemplate::from_users(&vec![u, User::new(4, "fay".to_string(), "x".to_string(), "admin".to_string())]);
    assert_eq!(page.users.len(), 2);
    assert_eq!(page.users[1].username, "fay");
    assert_eq!(page.users[1].role, "admin");
}
