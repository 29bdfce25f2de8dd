//! Authentication: credential verification, session issue on registration
//! and login, and the per-request authentication gate.

pub mod errors;
pub mod handlers;
pub mod middleware;
