//! Signed, short-lived bearer tokens that bind a subject to a role, and the
//! guard that checks them before a protected operation runs.

pub mod error;
pub mod role;
pub mod jwt;
pub mod token;
pub mod guard;
pub mod guarantees;
pub mod directory;
