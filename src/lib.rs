//! Security core of a small web dashboard.
//!
//! - [`role`]: roles and the capabilities each grants.
//! - [`user`]: user records and the user list page.
//! - [`auth`]: the authentication middleware's decision, login and logout,
//!   and per-route authorization that fails closed.
//! - [`audit`]: the events recorded, and the newest-first read path.
//! - [`crypto`]: password-based authenticated encryption of text.
//! - [`profile`]: profile display, profile updates and password changes.
//! - [`tools`]: the clock, the password generator and the text tools.
//! - [`text`]: character-level string helpers.
//! - [`primitives`]: the calls into std and outside crates, with the
//!   contracts this library relies on.
//!
//! The functions here decide; the server around them reads and writes the
//! session and the store, and appends the audit entries they hand back.

pub mod audit;
pub mod auth;
pub mod crypto;
pub mod primitives;
pub mod profile;
pub mod role;
pub mod text;
pub mod tools;
pub mod user;
