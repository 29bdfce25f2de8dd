//! Data model: user identities and login sessions.

pub mod session;
pub mod user;
