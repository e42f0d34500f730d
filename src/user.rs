//! User records as the credential store holds them, and their display rows.

use vstd::prelude::*;
use vstd::string::*;
use crate::role::{Role, role_of_tag};

verus! {

/// A user record. The role is kept as the tag the store holds and read
/// through [`User::role`].
pub struct User {
    pub id: i32,
    pub username: String,
    pub password_hash: String,
    pub role_str: String,
    pub email: Option<String>,
    pub full_name: Option<String>,
}

impl User {
    /// The role tag as stored.
    pub open spec fn stored_role(&self) -> Seq<char> {
        self.role_str@
    }

    /// The role the record grants.
    pub open spec fn role_spec(&self) -> Role {
        role_of_tag(self.stored_role())
    }

    /// A record without contact details.
    pub fn new(id: i32, username: String, password_hash: String, role_str: String) -> (r: User)
        ensures
            r.id == id,
            r.username@ == username@,
            r.password_hash@ == password_hash@,
            r.stored_role() == role_str@,
            r.email is None,
            r.full_name is None,
    {
        User { id, username, password_hash, role_str, email: None, full_name: None }
    }

    /// The role tag as stored.
    pub fn role_str(&self) -> (r: &str)
        ensures
            r@ == self.stored_role(),
    {
        self.role_str.as_str()
    }

    pub fn role(&self) -> (r: Role)
        ensures
            r == self.role_spec(),
    {
        Role::from_str(self.role_str.as_str())
    }
}

/// A row of the user list page.
pub struct UserDisplay {
    pub id: i32,
    pub username: String,
    pub role: String,
    pub created_at: String,
}

impl UserDisplay {
    /// Whether the row shows `user`.
    pub open spec fn shows(&self, user: User) -> bool {
        &&& self.id == user.id
        &&& self.username@ == user.username@
        &&& self.role@ == user.role_spec().tag()
        &&& self.created_at@ == "N/A"@
    }

    pub fn from_user(user: &User) -> (r: UserDisplay)
        ensures
            r.shows(*user),
    {
        UserDisplay {
            id: user.id,
            username: user.username.clone(),
            role: String::from_str(user.role().as_str()),
            created_at: String::from_str("N/A"),
        }
    }
}

/// The user list page.
pub struct UsersTemplate {
    pub users: Vec<UserDisplay>,
}

impl UsersTemplate {
    /// One row per user, in the given order.
    pub fn from_users(users: &Vec<User>) -> (r: UsersTemplate)
        ensures
            r.users@.len() == users@.len(),
            forall|i: int| 0 <= i < users@.len() ==> (#[trigger] r.users@[i]).shows(users@[i]),
    {
        let mut rows: Vec<UserDisplay> = Vec::new();
        let mut i: usize = 0;
        while i < users.len()
            invariant
                i <= users@.len(),
                rows@.len() == i,
                forall|j: int| 0 <= j < i ==> (#[trigger] rows@[j]).shows(users@[j]),
            decreases users@.len() - i,
        {
            rows.push(UserDisplay::from_user(&users[i]));
            i = i + 1;
        }
        UsersTemplate { users: rows }
    }
}

} // verus!
