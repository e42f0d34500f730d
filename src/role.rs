//! Roles and the capabilities each of them grants.

use vstd::prelude::*;
use crate::primitives::{lower_of, lowercase};
use crate::text::str_eq;

verus! {

/// The closed set of roles a user can hold.
#[derive(Debug, Clone, Copy, PartialEq, Eq, Structural)]
pub enum Role {
    Admin,
    User,
    Viewer,
}

/// The protected capabilities of the dashboard.
#[derive(Debug, Clone, Copy, PartialEq, Eq, Structural)]
pub enum Capability {
    ViewSysinfo,
    UseCrypto,
    ManageUsers,
    ViewAudit,
}

/// The role that an already lowercased tag names; unknown tags fall back to `User`.
pub open spec fn role_named(tag: Seq<char>) -> Role {
    if tag == "admin"@ {
        Role::Admin
    } else if tag == "viewer"@ {
        Role::Viewer
    } else {
        Role::User
    }
}

/// The role a stored tag stands for, compared without regard to case.
pub open spec fn role_of_tag(tag: Seq<char>) -> Role {
    role_named(lower_of(tag))
}

impl Role {
    /// The canonical lowercase tag of the role.
    pub open spec fn tag(self) -> Seq<char> {
        match self {
            Role::Admin => "admin"@,
            Role::User => "user"@,
            Role::Viewer => "viewer"@,
        }
    }

    /// The capability table: metrics and crypto for Admin and User, user
    /// management and the audit log for Admin alone.
    pub open spec fn grants(self, cap: Capability) -> bool {
        match cap {
            Capability::ViewSysinfo => self == Role::Admin || self == Role::User,
            Capability::UseCrypto => self == Role::Admin || self == Role::User,
            Capability::ManageUsers => self == Role::Admin,
            Capability::ViewAudit => self == Role::Admin,
        }
    }

    /// Parses a stored role tag, ignoring case; unknown tags give `User`.
    pub fn from_str(s: &str) -> (r: Role)
        ensures
            r == role_of_tag(s@),
    {
        let lowered = lowercase(s);
        Role::from_lowercase(lowered.as_str())
    }

    /// Parses a tag that is already lowercase; unknown tags give `User`.
    pub fn from_lowercase(s: &str) -> (r: Role)
        ensures
            r == role_named(s@),
    {
        if str_eq(s, "admin") {
            Role::Admin
        } else if str_eq(s, "viewer") {
            Role::Viewer
        } else {
            Role::User
        }
    }

    pub fn as_str(&self) -> (r: &'static str)
        ensures
            r@ == self.tag(),
    {
        match self {
            Role::Admin => "admin",
            Role::User => "user",
            Role::Viewer => "viewer",
        }
    }

    /// Whether the role grants `cap`.
    pub fn permits(&self, cap: Capability) -> (r: bool)
        ensures
            r == self.grants(cap),
    {
        match cap {
            Capability::ViewSysinfo => matches!(self, Role::Admin | Role::User),
            Capability::UseCrypto => matches!(self, Role::Admin | Role::User),
            Capability::ManageUsers => matches!(self, Role::Admin),
            Capability::ViewAudit => matches!(self, Role::Admin),
        }
    }

    pub fn can_access_sysinfo(&self) -> (r: bool)
        ensures
            r == self.grants(Capability::ViewSysinfo),
    {
        self.permits(Capability::ViewSysinfo)
    }

    pub fn can_access_crypto(&self) -> (r: bool)
        ensures
            r == self.grants(Capability::UseCrypto),
    {
        self.permits(Capability::UseCrypto)
    }

    pub fn can_access_users(&self) -> (r: bool)
        ensures
            r == self.grants(Capability::ManageUsers),
    {
        self.permits(Capability::ManageUsers)
    }

    pub fn can_access_audit(&self) -> (r: bool)
        ensures
            r == self.grants(Capability::ViewAudit),
    {
        self.permits(Capability::ViewAudit)
    }
}

} // verus!
