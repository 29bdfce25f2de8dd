//! The authentication subsystem's errors and their client-visible mapping.

use vstd::prelude::*;

verus! {

/// Every failure the authentication paths can answer with. Credential
/// errors are safe to disclose; the infrastructure kinds (store, hashing)
/// all collapse to one generic internal-error response, and their cause is
/// never echoed to the client.
#[derive(Debug, Clone, Copy, PartialEq, Eq, Structural)]
pub enum AuthError {
    InvalidCredentials,
    EmailAlreadyExists,
    NotLogined,
    MissingCookieHeader,
    MissingSessionId,
    UserNotFound,
    DatabaseError,
    BcryptError,
    RepositoryError,
    InternalError,
}

pub type AuthResult<T> = Result<T, AuthError>;

/// The HTTP status that each error maps to: unauthorized for credential and
/// session-resolution failures, conflict for a taken email, not-found for a
/// missing user, internal-server-error for every infrastructure failure.
pub open spec fn spec_status_code(e: AuthError) -> u16 {
    match e {
        AuthError::InvalidCredentials => 401,
        AuthError::EmailAlreadyExists => 409,
        AuthError::NotLogined => 401,
        AuthError::MissingCookieHeader => 401,
        AuthError::MissingSessionId => 401,
        AuthError::UserNotFound => 404,
        AuthError::DatabaseError => 500,
        AuthError::BcryptError => 500,
        AuthError::RepositoryError => 500,
        AuthError::InternalError => 500,
    }
}

/// The fixed, safe message disclosed to the client for each error.
pub open spec fn spec_error_message(e: AuthError) -> Seq<char> {
    match e {
        AuthError::InvalidCredentials => "Invalid credentials"@,
        AuthError::EmailAlreadyExists => "Email already exists"@,
        AuthError::NotLogined => "Not Logined"@,
        AuthError::MissingCookieHeader => "Cookie header not found."@,
        AuthError::MissingSessionId => "Invalid session id"@,
        AuthError::UserNotFound => "User not found"@,
        AuthError::DatabaseError => "Internal server error"@,
        AuthError::BcryptError => "Internal server error"@,
        AuthError::RepositoryError => "Internal server error"@,
        AuthError::InternalError => "Internal server error"@,
    }
}

impl AuthError {
    /// The status code of the response this error turns into.
    pub fn status_code(&self) -> (r: u16)
        ensures
            r == spec_status_code(*self),
    {
        match self {
            AuthError::InvalidCredentials => 401,
            AuthError::EmailAlreadyExists => 409,
            AuthError::NotLogined => 401,
            AuthError::MissingCookieHeader => 401,
            AuthError::MissingSessionId => 401,
            AuthError::UserNotFound => 404,
            AuthError::DatabaseError => 500,
            AuthError::BcryptError => 500,
            AuthError::RepositoryError => 500,
            AuthError::InternalError => 500,
        }
    }

    /// The body message of the response this error turns into.
    pub fn error_message(&self) -> (r: &'static str)
        ensures
            r@ == spec_error_message(*self),
    {
        match self {
            AuthError::InvalidCredentials => "Invalid credentials",
            AuthError::EmailAlreadyExists => "Email already exists",
            AuthError::NotLogined => "Not Logined",
            AuthError::MissingCookieHeader => "Cookie header not found.",
            AuthError::MissingSessionId => "Invalid session id",
            AuthError::UserNotFound => "User not found",
            AuthError::DatabaseError => "Internal server error",
            AuthError::BcryptError => "Internal server error",
            AuthError::RepositoryError => "Internal server error",
            AuthError::InternalError => "Internal server error",
        }
    }
}

} // verus!
