//! Registration, login and logout: the credential verifier and the session
//! issuer behind them.

use crate::auth::errors::AuthError;
use crate::cookie::{
    clear_session_cookie,
    encode_session_cookie,
    parse_session_id,
    spec_clear_cookie,
    spec_parse_session_id,
    spec_session_cookie,
};
use crate::models::session::{uuid_text, Session, SessionView};
use crate::models::user::UserView;
use crate::repositories::session_repository::{has_csrf_token, has_uuid, without_uuid};
use crate::repositories::user_repository::{
    has_email,
    lemma_user_with_email,
    spec_user_with_email,
};
use crate::AppState;
use vstd::prelude::*;

verus! {

/// A registration request: the new account's email and password.
pub struct RegisterRequest {
    pub email: String,
    pub password: String,
}

/// A login request: the claimed email and password.
pub struct LoginRequest {
    pub email: String,
    pub password: String,
}

/// Names the result of `bcrypt::verify`: `Some(true)` when `password` is
/// the password that `hash` was derived from, `Some(false)` when it is not,
/// `None` when the hash is malformed. The result depends on the two
/// arguments alone.
pub uninterp spec fn bcrypt_verifies(password: Seq<char>, hash: Seq<char>) -> Option<bool>;

/// Relies on `bcrypt::verify`: checks a password against a full bcrypt
/// hash, deterministically in its two arguments; `None` stands for bcrypt's
/// error on a malformed hash.
#[verifier::external_body]
fn bcrypt_verify(password: &str, hash: &str) -> (r: Option<bool>)
    ensures
        r == bcrypt_verifies(password@, hash@),
{
    match bcrypt::verify(password, hash) {
        Ok(b) => Some(b),
        Err(_) => None,
    }
}

/// Relies on `bcrypt::hash` at the default cost: an adaptive, salted hash
/// drawn with a fresh random salt, so nothing is assumed about which hash
/// comes back — only that verifying the hashed password against it
/// succeeds. `None` stands for bcrypt's error.
#[verifier::external_body]
fn bcrypt_hash(password: &str) -> (r: Option<String>)
    ensures
        r matches Some(h) ==> bcrypt_verifies(password@, h@) == Some(true),
{
    bcrypt::hash(password, bcrypt::DEFAULT_COST).ok()
}

/// A user record was appended; everything earlier is unchanged.
pub open spec fn appended_user(pre: Seq<UserView>, post: Seq<UserView>, email: Seq<char>) -> bool {
    &&& post.len() == pre.len() + 1
    &&& post == pre.push(post.last())
    &&& post.last().email == email
}

/// A session record was appended for this user, with well-formed tokens
/// that no earlier record carried; everything earlier is unchanged.
pub open spec fn appended_session(
    pre: Seq<SessionView>,
    post: Seq<SessionView>,
    user_id: int,
) -> bool {
    &&& post.len() == pre.len() + 1
    &&& post == pre.push(post.last())
    &&& post.last().user_id == user_id
    &&& uuid_text(post.last().uuid)
    &&& uuid_text(post.last().csrf_token)
    &&& !has_uuid(pre, post.last().uuid)
    &&& !has_csrf_token(pre, post.last().csrf_token)
}

/// The credential verdict of a login attempt. An unknown email and a wrong
/// password yield the very same error — nothing discloses whether the
/// account exists. A malformed stored hash is an infrastructure failure.
pub open spec fn spec_login_err(
    users: Seq<UserView>,
    email: Seq<char>,
    password: Seq<char>,
) -> Option<AuthError> {
    if !has_email(users, email) {
        Some(AuthError::InvalidCredentials)
    } else {
        match bcrypt_verifies(password, spec_user_with_email(users, email).password) {
            Some(true) => None,
            Some(false) => Some(AuthError::InvalidCredentials),
            None => Some(AuthError::BcryptError),
        }
    }
}

/// Registration: rejects a taken email (matched exactly) with
/// `EmailAlreadyExists`, hashes the password with the adaptive salted hash,
/// creates the user, issues a session with two fresh random tokens, and
/// answers with the session cookie. A store or hashing failure surfaces as
/// an infrastructure error; a session-store failure can leave the new user
/// behind without a session, as the two inserts are separate atomic
/// statements.
pub fn register(state: &mut AppState, request: &RegisterRequest) -> (r: Result<String, AuthError>)
    requires
        old(state).wf(),
    ensures
        final(state).wf(),
        r == Err::<String, AuthError>(AuthError::EmailAlreadyExists) <==> has_email(
            old(state).users@,
            request.email@,
        ),
        r is Err ==> final(state).sessions@ == old(state).sessions@,
        r is Err ==> (r == Err::<String, AuthError>(AuthError::EmailAlreadyExists) || r == Err::<
            String,
            AuthError,
        >(AuthError::BcryptError) || r == Err::<String, AuthError>(AuthError::DatabaseError)),
        (r == Err::<String, AuthError>(AuthError::EmailAlreadyExists) || r == Err::<
            String,
            AuthError,
        >(AuthError::BcryptError)) ==> final(state).users@ == old(state).users@,
        r is Err ==> (final(state).users@ == old(state).users@ || appended_user(
            old(state).users@,
            final(state).users@,
            request.email@,
        )),
        r matches Ok(cookie) ==> {
            &&& !has_email(old(state).users@, request.email@)
            &&& appended_user(old(state).users@, final(state).users@, request.email@)
            &&& bcrypt_verifies(request.password@, final(state).users@.last().password) == Some(
                true,
            )
            &&& appended_session(
                old(state).sessions@,
                final(state).sessions@,
                final(state).users@.last().id,
            )
            &&& cookie@ == spec_session_cookie(final(state).sessions@.last().uuid)
        },
{
    if state.users.exists_by_email(request.email.as_str()) {
        return Err(AuthError::EmailAlreadyExists);
    }
    let password_hash = match bcrypt_hash(request.password.as_str()) {
        Some(h) => h,
        None => {
            return Err(AuthError::BcryptError);
        },
    };
    let user_id = match state.users.create(request.email.as_str(), password_hash.as_str()) {
        Ok(id) => id,
        Err(_) => {
            return Err(AuthError::DatabaseError);
        },
    };
    let session = Session::new(user_id, None, None);
    match state.sessions.create(&session) {
        Ok(_) => {},
        Err(_) => {
            return Err(AuthError::DatabaseError);
        },
    }
    Ok(encode_session_cookie(session.get_session_uuid()))
}

/// Login: an unknown email and a failed hash comparison both answer
/// `InvalidCredentials`, with no observable difference that would disclose
/// whether the account exists — the unknown-email path pays a hash
/// verification against a fixed placeholder hash of the default cost, so the
/// two rejections also cost the same adaptive-hash work. On success a fresh
/// session is issued and its cookie returned. The user store is never
/// changed.
pub fn login(state: &mut AppState, request: &LoginRequest) -> (r: Result<String, AuthError>)
    requires
        old(state).wf(),
    ensures
        final(state).wf(),
        final(state).users@ == old(state).users@,
        spec_login_err(old(state).users@, request.email@, request.password@) matches Some(e) ==> (r
            == Err::<String, AuthError>(e) && final(state).sessions@ == old(state).sessions@),
        r is Err ==> final(state).sessions@ == old(state).sessions@,
        spec_login_err(old(state).users@, request.email@, request.password@) is None ==> (r is Ok
            || r == Err::<String, AuthError>(AuthError::DatabaseError)),
        r matches Ok(cookie) ==> {
            &&& spec_login_err(old(state).users@, request.email@, request.password@) is None
            &&& appended_session(
                old(state).sessions@,
                final(state).sessions@,
                spec_user_with_email(old(state).users@, request.email@).id,
            )
            &&& cookie@ == spec_session_cookie(final(state).sessions@.last().uuid)
        },
{
    let user = match state.users.find_by_email(request.email.as_str()) {
        Some(u) => u,
        None => {
            let _ = bcrypt_verify(
                request.password.as_str(),
                "$2y$12$L6Bc/AlTQHyd9liGgGEZyOFLPHNgyxeEPfgYfBCVxJ7JIlwxyVU3u",
            );
            return Err(AuthError::InvalidCredentials);
        },
    };
    proof {
        state.users.lemma_wf();
        assert(has_email(state.users@, request.email@));
        lemma_user_with_email(state.users@, request.email@);
        assert(spec_user_with_email(state.users@, request.email@) == user@);
    }
    let verified = match bcrypt_verify(request.password.as_str(), user.password.as_str()) {
        Some(b) => b,
        None => {
            return Err(AuthError::BcryptError);
        },
    };
    if !verified {
        return Err(AuthError::InvalidCredentials);
    }
    let session = Session::new(user.id, None, None);
    match state.sessions.create(&session) {
        Ok(_) => {},
        Err(_) => {
            return Err(AuthError::DatabaseError);
        },
    }
    Ok(encode_session_cookie(session.get_session_uuid()))
}

/// Logout: revokes the session named by the request's cookie, if the header
/// carries one, and answers with the clearing cookie in every case —
/// logging out without a session is not an error, and two concurrent
/// logouts of one session both succeed.
pub fn logout(state: &mut AppState, cookie_header: Option<&str>) -> (r: String)
    requires
        old(state).wf(),
    ensures
        final(state).wf(),
        final(state).users@ == old(state).users@,
        r@ == spec_clear_cookie(),
        match cookie_header.deep_view() {
            None => final(state).sessions@ == old(state).sessions@,
            Some(h) => match spec_parse_session_id(h) {
                None => final(state).sessions@ == old(state).sessions@,
                Some(sid) => final(state).sessions@ == old(state).sessions@.filter(
                    without_uuid(sid),
                ),
            },
        },
{
    if let Some(header) = cookie_header {
        if let Some(session_id) = parse_session_id(header) {
            state.sessions.delete_by_uuid(session_id);
        }
    }
    clear_session_cookie()
}

} // verus!
