use argon2::password_hash::{PasswordHash, PasswordHasher, PasswordVerifier, SaltString};
use rust_dashboard::auth::StoreError;
use rust_dashboard::profile::{
    change_password, change_password_done, check_password_change, show_profile, update_profile,
    update_profile_done, ChangePasswordForm, PasswordChange, ProfileError, ProfileUpdate,
    UpdateProfileForm,
};
use rust_dashboard::user::User;

fn phc(password: &str) -> String {
    let params = argon2::Params::new(8, 1, 1, None).unwrap();
    let a = argon2::Argon2::new(argon2::Algorithm::Argon2id, argon2::Version::V0x13, params);
    let salt = SaltString::from_b64("c2FsdHNhbHRzYWx0").unwrap();
    a.hash_password(password.as_bytes(), &salt).unwrap().to_string()
}

fn hana() -> User {
    let mut u = User::new(11, "hana".to_string(), phc("old-password"), "user".to_string());
    u.email = Some("hana@example.com".to_string());
    u
}

fn change(current: &str, new: &str, confirm: &str) -> ChangePasswordForm {
    ChangePasswordForm {
        current_password: current.to_string(),
        new_password: new.to_string(),
        confirm_password: confirm.to_string(),
    }
}

#[test]
fn show_profile_of_found_user() {
    let page = show_profile("hana".to_string(), Ok(Some(hana())));
    assert_eq!(page.username, "hana");
    assert_eq!(page.email, "hana@example.com");
    assert_eq!(page.full_name, "");
    assert!(!page.show_error && !page.show_success);
}

#[test]
fn show_profile_reports_missing_user_and_store_failure() {
    let page = show_profile("ghost".to_string(), Ok(None));
    assert_eq!(page.username, "ghost");
    assert!(page.show_error);
    assert_eq!(page.error_message, ProfileError::UserNotFound.message());
    let page = show_profile("ghost".to_string(), Err(StoreError::Unavailable));
    assert_eq!(page.error_message, ProfileError::StoreFailure.message());
}

#[test]
fn update_profile_treats_empty_fields_as_none() {
    let form = UpdateProfileForm { email: "".to_string(), full_name: "Hana Sato".to_string() };
    match update_profile("hana".to_string(), Ok(Some(hana())), &form) {
        ProfileUpdate::Write { user, email, full_name } => {
            assert_eq!(user.id, 11);
            assert_eq!(email, None);
            assert_eq!(full_name.as_deref(), Some("Hana Sato"));
            let page = update_profile_done(user, email, full_name, true);
            assert!(page.show_success);
            assert_eq!(page.success_message, "Profile updated");
            assert_eq!(page.full_name, "Hana Sato");
            assert_eq!(page.email, "");
        }
        _ => panic!("expected a write"),
    }
}

#[test]
fn update_profile_failed_write_keeps_stored_values() {
    let page = update_profile_done(hana(), None, Some("X".to_string()), false);
    assert!(page.show_error);
    assert_eq!(page.error_message, "Failed to update the profile");
    assert_eq!(page.email, "hana@example.com");
    assert_eq!(page.full_name, "");
    let form = UpdateProfileForm { email: "a".to_string(), full_name: "b".to_string() };
    assert!(matches!(update_profile("x".to_string(), Ok(None), &form), ProfileUpdate::Show(_)));
}

#[test]
fn check_password_change_order_of_refusals() {
    assert_eq!(check_password_change(&change("a", "b", "b"), false), Err(ProfileError::WrongCurrentPassword));
    assert_eq!(check_password_change(&change("a", "longenough", "different"), true), Err(ProfileError::PasswordMismatch));
    assert_eq!(check_password_change(&change("a", "short", "short"), true), Err(ProfileError::PasswordTooShort));
    assert_eq!(check_password_change(&change("a", "12345678", "12345678"), true), Ok(()));
}

#[test]
fn change_password_refuses_wrong_current_password() {
    match change_password("hana".to_string(), Ok(Some(hana())), &change("nope", "newpassword", "newpassword")) {
        PasswordChange::Show(page) => {
            assert_eq!(page.error_message, "The current password is incorrect");
            assert_eq!(page.email, "hana@example.com");
        }
        _ => panic!("expected a refusal"),
    }
}

#[test]
fn change_password_refuses_short_or_mismatched() {
    match change_password("hana".to_string(), Ok(Some(hana())), &change("old-password", "short", "short")) {
        PasswordChange::Show(page) => assert_eq!(page.error_message, "The new password must be at least 8 characters"),
        _ => panic!("expected a refusal"),
    }
    match change_password("hana".to_string(), Ok(Some(hana())), &change("old-password", "newpassword", "newpasswore")) {
        PasswordChange::Show(page) => assert_eq!(page.error_message, "The new passwords do not match"),
        _ => panic!("expected a refusal"),
    }
}

#[test]
fn change_password_hashes_the_new_password() {
    match change_password("hana".to_string(), Ok(Some(hana())), &change("old-password", "newpassword", "newpassword")) {
        PasswordChange::Write { user, password_hash } => {
            assert_eq!(user.id, 11);
            let parsed = PasswordHash::new(&password_hash).unwrap();
            assert!(argon2::Argon2::default().verify_password(b"newpassword", &parsed).is_ok());
            assert!(argon2::Argon2::default().verify_password(b"old-password", &parsed).is_err());
            let page = change_password_done(user, true);
            assert_eq!(page.success_message, "Password changed");
        }
        _ => panic!("expected a write"),
    }
}

#[test]
fn change_password_done_reports_failed_write() {
    let page = change_password_done(hana(), false);
    assert!(page.show_error);
    assert_eq!(page.error_message, "Failed to change the password");
    assert_eq!(page.username, "hana");
}

#[test]
fn hash_password_verifies_only_its_password() {
    let hash = rust_dashboard::profile::hash_password("correct horse").unwrap();
    let parsed = PasswordHash::new(&hash).unwrap();
    assert!(argon2::Argon2::default().verify_password(b"correct horse", &parsed).is_ok());
    assert!(argon2::Argon2::default().verify_password(b"battery staple", &parsed).is_err());
    assert_ne!(hash, rust_dashboard::profile::hash_password("correct horse").unwrap());
}
