//! The profile page: showing a user's details, updating them, and changing
//! the password.
//!
//! As with login, these functions decide and the caller performs: it looks
//! the user up, writes the changes and renders the page handed back.

use vstd::prelude::*;
use vstd::string::*;
use vstd::utf8::encode_utf8;
use crate::auth::{StoreError, found_user};
use crate::primitives::{hash_password_with_salt, phc_accepts, random_bytes, verify_phc};
use crate::text::str_eq;
use crate::user::User;

verus! {

/// The fewest bytes a new password may have.
pub const MIN_PASSWORD_LEN: usize = 8;

/// Bytes of fresh salt for a new password hash.
pub const SALT_LEN: usize = 16;

/// The submitted profile form; an empty field clears the value.
pub struct UpdateProfileForm {
    pub email: String,
    pub full_name: String,
}

/// The submitted password change form.
pub struct ChangePasswordForm {
    pub current_password: String,
    pub new_password: String,
    pub confirm_password: String,
}

/// Why a profile request did not go through.
#[derive(Debug, Clone, Copy, PartialEq, Eq, Structural)]
pub enum ProfileError {
    UserNotFound,
    StoreFailure,
    WrongCurrentPassword,
    PasswordMismatch,
    PasswordTooShort,
    HashingFailed,
    ProfileNotSaved,
    PasswordNotSaved,
}

impl ProfileError {
    pub open spec fn message_spec(self) -> Seq<char> {
        match self {
            ProfileError::UserNotFound => "User not found"@,
            ProfileError::StoreFailure => "A database error occurred"@,
            ProfileError::WrongCurrentPassword => "The current password is incorrect"@,
            ProfileError::PasswordMismatch => "The new passwords do not match"@,
            ProfileError::PasswordTooShort => "The new password must be at least 8 characters"@,
            ProfileError::HashingFailed => "Failed to hash the password"@,
            ProfileError::ProfileNotSaved => "Failed to update the profile"@,
            ProfileError::PasswordNotSaved => "Failed to change the password"@,
        }
    }

    pub fn message(&self) -> (r: &'static str)
        ensures
            r@ == self.message_spec(),
    {
        match self {
            ProfileError::UserNotFound => "User not found",
            ProfileError::StoreFailure => "A database error occurred",
            ProfileError::WrongCurrentPassword => "The current password is incorrect",
            ProfileError::PasswordMismatch => "The new passwords do not match",
            ProfileError::PasswordTooShort => "The new password must be at least 8 characters",
            ProfileError::HashingFailed => "Failed to hash the password",
            ProfileError::ProfileNotSaved => "Failed to update the profile",
            ProfileError::PasswordNotSaved => "Failed to change the password",
        }
    }
}

/// What an optional field shows: the value, or nothing.
pub open spec fn or_empty(o: Option<String>) -> Seq<char> {
    match o {
        Some(s) => s@,
        None => Seq::empty(),
    }
}

fn text_or_empty(o: &Option<String>) -> (r: String)
    ensures
        r@ == or_empty(*o),
{
    match o {
        Some(s) => s.clone(),
        None => String::new(),
    }
}

/// The profile page.
pub struct ProfileTemplate {
    pub username: String,
    pub email: String,
    pub full_name: String,
    pub success_message: String,
    pub error_message: String,
    pub show_success: bool,
    pub show_error: bool,
}

impl ProfileTemplate {
    /// Whether the page shows the given details.
    pub open spec fn shows(self, username: Seq<char>, email: Seq<char>, full_name: Seq<char>) -> bool {
        self.username@ == username && self.email@ == email && self.full_name@ == full_name
    }

    /// Whether the page shows `user` as stored.
    pub open spec fn shows_user(self, user: User) -> bool {
        self.shows(user.username@, or_empty(user.email), or_empty(user.full_name))
    }

    /// Whether the page carries no message.
    pub open spec fn is_plain(self) -> bool {
        &&& !self.show_success && !self.show_error
        &&& self.success_message@.len() == 0 && self.error_message@.len() == 0
    }

    /// Whether the page carries only the error `e`.
    pub open spec fn reports(self, e: ProfileError) -> bool {
        &&& self.show_error && !self.show_success
        &&& self.error_message@ == e.message_spec()
        &&& self.success_message@.len() == 0
    }

    /// Whether the page carries only the success message `text`.
    pub open spec fn confirms(self, text: Seq<char>) -> bool {
        &&& self.show_success && !self.show_error
        &&& self.success_message@ == text
        &&& self.error_message@.len() == 0
    }

    fn plain(username: String, email: String, full_name: String) -> (r: ProfileTemplate)
        ensures
            r.shows(username@, email@, full_name@),
            r.is_plain(),
    {
        ProfileTemplate {
            username,
            email,
            full_name,
            success_message: String::new(),
            error_message: String::new(),
            show_success: false,
            show_error: false,
        }
    }

    fn error(username: String, email: String, full_name: String, e: ProfileError) -> (r: ProfileTemplate)
        ensures
            r.shows(username@, email@, full_name@),
            r.reports(e),
    {
        ProfileTemplate {
            username,
            email,
            full_name,
            success_message: String::new(),
            error_message: String::from_str(e.message()),
            show_success: false,
            show_error: true,
        }
    }

    fn success(username: String, email: String, full_name: String, text: &str) -> (r: ProfileTemplate)
        ensures
            r.shows(username@, email@, full_name@),
            r.confirms(text@),
    {
        ProfileTemplate {
            username,
            email,
            full_name,
            success_message: String::from_str(text),
            error_message: String::new(),
            show_success: true,
            show_error: false,
        }
    }

    /// The page for a user that could not be loaded: the session's username
    /// and no details.
    fn lookup_failed(username: String, lookup_failed_hard: bool) -> (r: ProfileTemplate)
        ensures
            r.shows(username@, Seq::empty(), Seq::empty()),
            r.reports(
                if lookup_failed_hard {
                    ProfileError::StoreFailure
                } else {
                    ProfileError::UserNotFound
                },
            ),
    {
        let e = if lookup_failed_hard {
            ProfileError::StoreFailure
        } else {
            ProfileError::UserNotFound
        };
        ProfileTemplate::error(username, String::new(), String::new(), e)
    }
}

/// The error for a lookup that found no user: a store failure or a missing row.
pub open spec fn lookup_error(lookup: Result<Option<User>, StoreError>) -> ProfileError {
    if lookup is Err {
        ProfileError::StoreFailure
    } else {
        ProfileError::UserNotFound
    }
}

/// The profile page of the session's user, given what the lookup of
/// `username` returned.
pub fn show_profile(username: String, lookup: Result<Option<User>, StoreError>) -> (r: ProfileTemplate)
    ensures
        match found_user(lookup) {
            Some(u) => r.shows_user(u) && r.is_plain(),
            None => r.shows(username@, Seq::empty(), Seq::empty()) && r.reports(lookup_error(lookup)),
        },
{
    match lookup {
        Ok(Some(user)) => ProfileTemplate::plain(
            user.username.clone(),
            text_or_empty(&user.email),
            text_or_empty(&user.full_name),
        ),
        Ok(None) => ProfileTemplate::lookup_failed(username, false),
        Err(_) => ProfileTemplate::lookup_failed(username, true),
    }
}

/// A form field as stored: an empty field is no value.
pub open spec fn field_value(field: Seq<char>) -> Option<Seq<char>> {
    if field.len() == 0 {
        None
    } else {
        Some(field)
    }
}

fn field(text: &String) -> (r: Option<String>)
    ensures
        match r {
            Some(s) => s@ == text@ && field_value(text@) == Some(text@),
            None => field_value(text@) is None,
        },
{
    if text.as_str().is_empty() {
        None
    } else {
        Some(text.clone())
    }
}

/// What a profile update comes to.
pub enum ProfileUpdate {
    /// Nothing to write: show the page.
    Show(ProfileTemplate),
    /// Store these values for the user, then finish with [`update_profile_done`].
    Write { user: User, email: Option<String>, full_name: Option<String> },
}

/// A profile update by the session's user, given what the lookup of
/// `username` returned.
pub fn update_profile(username: String, lookup: Result<Option<User>, StoreError>, form: &UpdateProfileForm) -> (r: ProfileUpdate)
    ensures
        match found_user(lookup) {
            Some(u) => {
                &&& r matches ProfileUpdate::Write { user, email, full_name }
                &&& user == u
                &&& crate::audit::opt_view(email) == field_value(form.email@)
                &&& crate::audit::opt_view(full_name) == field_value(form.full_name@)
            },
            None => r matches ProfileUpdate::Show(page) && page.shows(username@, Seq::empty(), Seq::empty())
                && page.reports(lookup_error(lookup)),
        },
{
    match lookup {
        Ok(Some(user)) => ProfileUpdate::Write { user, email: field(&form.email), full_name: field(&form.full_name) },
        Ok(None) => ProfileUpdate::Show(ProfileTemplate::lookup_failed(username, false)),
        Err(_) => ProfileUpdate::Show(ProfileTemplate::lookup_failed(username, true)),
    }
}

/// The page after writing a profile update: the new values where the write
/// succeeded, the stored ones otherwise.
pub fn update_profile_done(user: User, email: Option<String>, full_name: Option<String>, written: bool) -> (r: ProfileTemplate)
    ensures
        written ==> r.shows(user.username@, or_empty(email), or_empty(full_name)) && r.confirms(
            "Profile updated"@,
        ),
        !written ==> r.shows_user(user) && r.reports(ProfileError::ProfileNotSaved),
{
    if written {
        ProfileTemplate::success(
            user.username.clone(),
            text_or_empty(&email),
            text_or_empty(&full_name),
            "Profile updated",
        )
    } else {
        ProfileTemplate::error(
            user.username.clone(),
            text_or_empty(&user.email),
            text_or_empty(&user.full_name),
            ProfileError::ProfileNotSaved,
        )
    }
}

/// Why a password change is refused before anything is hashed, if it is.
pub open spec fn change_refusal(form_new: Seq<char>, form_confirm: Seq<char>, current_ok: bool) -> Option<ProfileError> {
    if !current_ok {
        Some(ProfileError::WrongCurrentPassword)
    } else if form_new != form_confirm {
        Some(ProfileError::PasswordMismatch)
    } else if encode_utf8(form_new).len() < MIN_PASSWORD_LEN {
        Some(ProfileError::PasswordTooShort)
    } else {
        None
    }
}

/// Checks a password change once the current password has been verified:
/// `current_ok` is that verdict.
pub fn check_password_change(form: &ChangePasswordForm, current_ok: bool) -> (r: Result<(), ProfileError>)
    ensures
        match change_refusal(form.new_password@, form.confirm_password@, current_ok) {
            Some(e) => r == Err::<(), ProfileError>(e),
            None => r is Ok,
        },
{
    if !current_ok {
        return Err(ProfileError::WrongCurrentPassword);
    }
    if !str_eq(form.new_password.as_str(), form.confirm_password.as_str()) {
        return Err(ProfileError::PasswordMismatch);
    }
    if form.new_password.as_str().as_bytes().len() < MIN_PASSWORD_LEN {
        return Err(ProfileError::PasswordTooShort);
    }
    Ok(())
}

/// Hashes a password for storage, with a fresh random salt. The PHC string
/// returned verifies that password.
pub fn hash_password(password: &str) -> (r: Option<String>)
    ensures
        r is Some <==> encode_utf8(password@).len() <= 0xFFFF_FFFF,
        r matches Some(h) ==> phc_accepts(encode_utf8(password@), h@),
{
    let salt = random_bytes(SALT_LEN);
    match hash_password_with_salt(password.as_bytes(), salt.as_slice()) {
        Ok(h) => Some(h),
        Err(_) => None,
    }
}

/// What a password change comes to.
pub enum PasswordChange {
    /// Nothing to write: show the page.
    Show(ProfileTemplate),
    /// Store this hash for the user, then finish with [`change_password_done`].
    Write { user: User, password_hash: String },
}

/// A password change by the session's user, given what the lookup of
/// `username` returned. The new password is hashed with a fresh random salt;
/// a change that passes the checks is written unless the new password is too
/// long to hash (over 2^32 - 1 bytes).
pub fn change_password(username: String, lookup: Result<Option<User>, StoreError>, form: &ChangePasswordForm) -> (r: PasswordChange)
    ensures
        match found_user(lookup) {
            None => r matches PasswordChange::Show(page) && page.shows(username@, Seq::empty(), Seq::empty())
                && page.reports(lookup_error(lookup)),
            Some(u) => match change_refusal(
                form.new_password@,
                form.confirm_password@,
                phc_accepts(encode_utf8(form.current_password@), u.password_hash@),
            ) {
                Some(e) => r matches PasswordChange::Show(page) && page.shows_user(u) && page.reports(e),
                None => match r {
                    PasswordChange::Write { user, password_hash } => {
                        &&& encode_utf8(form.new_password@).len() <= 0xFFFF_FFFF
                        &&& user == u
                        &&& phc_accepts(encode_utf8(form.new_password@), password_hash@)
                    },
                    PasswordChange::Show(page) => {
                        &&& encode_utf8(form.new_password@).len() > 0xFFFF_FFFF
                        &&& page.shows_user(u)
                        &&& page.reports(ProfileError::HashingFailed)
                    },
                },
            },
        },
{
    let user = match lookup {
        Ok(Some(user)) => user,
        Ok(None) => return PasswordChange::Show(ProfileTemplate::lookup_failed(username, false)),
        Err(_) => return PasswordChange::Show(ProfileTemplate::lookup_failed(username, true)),
    };
    let current_ok = verify_phc(form.current_password.as_str().as_bytes(), user.password_hash.as_str());
    if let Err(e) = check_password_change(form, current_ok) {
        let page = ProfileTemplate::error(
            user.username.clone(),
            text_or_empty(&user.email),
            text_or_empty(&user.full_name),
            e,
        );
        return PasswordChange::Show(page);
    }
    match hash_password(form.new_password.as_str()) {
        Some(password_hash) => PasswordChange::Write { user, password_hash },
        None => {
            let page = ProfileTemplate::error(
                user.username.clone(),
                text_or_empty(&user.email),
                text_or_empty(&user.full_name),
                ProfileError::HashingFailed,
            );
            PasswordChange::Show(page)
        },
    }
}

/// The page after writing a new password hash.
pub fn change_password_done(user: User, written: bool) -> (r: ProfileTemplate)
    ensures
        r.shows_user(user),
        written ==> r.confirms("Password changed"@),
        !written ==> r.reports(ProfileError::PasswordNotSaved),
{
    let email = text_or_empty(&user.email);
    let full_name = text_or_empty(&user.full_name);
    if written {
        ProfileTemplate::success(user.username.clone(), email, full_name, "Password changed")
    } else {
        ProfileTemplate::error(user.username.clone(), email, full_name, ProfileError::PasswordNotSaved)
    }
}

} // verus!
