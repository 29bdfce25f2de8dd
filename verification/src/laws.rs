//! The security laws of the subsystem, proved from the components'
//! contracts: what registration, login, logout, the authentication gate and
//! the CSRF guard together guarantee.

use crate::auth::errors::AuthError;
use crate::auth::handlers::{appended_session, appended_user, bcrypt_verifies, spec_login_err};
use crate::auth::middleware::spec_authenticate;
use crate::cookie::{is_cookie_ws, lemma_cookie_round_trip, spec_parse_session_id,
    spec_session_cookie};
use crate::csrf::middleware::{spec_csrf_check, spec_is_safe_method, CsrfError, HttpMethod};
use crate::models::session::{uuid_char, uuid_text, SessionView};
use crate::models::user::UserView;
use crate::repositories::distinct_by;
use crate::repositories::session_repository::{
    has_uuid,
    lemma_session_for_uuid,
    spec_session_for_uuid,
    without_user_id,
    without_uuid,
};
use crate::repositories::user_repository::{
    has_email,
    has_user_id,
    lemma_user_with_email,
    lemma_user_with_id,
    spec_user_with_email,
    spec_user_with_id,
};
use vstd::prelude::*;

verus! {

broadcast use vstd::seq_lib::group_filter_ensures;

/// A well-formed token is safe inside a cookie: none of its characters is a
/// semicolon or whitespace.
proof fn lemma_uuid_text_cookie_safe(u: Seq<char>)
    requires
        uuid_text(u),
    ensures
        forall|k: int| 0 <= k < u.len() ==> u[k] != ';',
        u.len() > 0 ==> !is_cookie_ws(u[u.len() - 1]),
{
    assert forall|k: int| 0 <= k < u.len() implies u[k] != ';' && !is_cookie_ws(u[k]) by {
        assert(uuid_char(u[k]));
    }
}

/// Registering an email leaves it registered, so that registering the very
/// same email once more answers `EmailAlreadyExists`: `register` appends a
/// user carrying the email on success, and fails with exactly that error
/// exactly when the email is present.
pub proof fn lemma_register_twice(pre: Seq<UserView>, post: Seq<UserView>, email: Seq<char>)
    requires
        appended_user(pre, post, email),
    ensures
        has_email(post, email),
{
    assert(post[post.len() - 1].email == email);
}

/// Non-enumeration: an unregistered email and a registered email with a
/// wrong password draw the very same `InvalidCredentials` verdict from
/// `login` — and with it the same status code and the same message — so the
/// two responses are byte-identical and disclose nothing about which
/// accounts exist.
pub proof fn lemma_login_non_enumeration(
    users: Seq<UserView>,
    e1: Seq<char>,
    p1: Seq<char>,
    e2: Seq<char>,
    p2: Seq<char>,
)
    requires
        !has_email(users, e1),
        has_email(users, e2),
        bcrypt_verifies(p2, spec_user_with_email(users, e2).password) == Some(false),
    ensures
        spec_login_err(users, e1, p1) == spec_login_err(users, e2, p2),
        spec_login_err(users, e1, p1) == Some(AuthError::InvalidCredentials),
{
}

/// After a successful login or registration, the returned cookie
/// authenticates as the owning user on the very next request: the cookie
/// decodes back to the fresh session's identifier, session resolution finds that
/// session, and its owner is the user logged in as.
pub proof fn lemma_login_cookie_authenticates(
    users: Seq<UserView>,
    pre: Seq<SessionView>,
    post: Seq<SessionView>,
    email: Seq<char>,
    cookie: Seq<char>,
)
    requires
        distinct_by(users, |u: UserView| u.email),
        distinct_by(users, |u: UserView| u.id),
        distinct_by(post, |s: SessionView| s.uuid),
        has_email(users, email),
        appended_session(pre, post, spec_user_with_email(users, email).id),
        cookie == spec_session_cookie(post.last().uuid),
    ensures
        spec_authenticate(users, post, Some(cookie)) == Ok::<UserView, AuthError>(
            spec_user_with_email(users, email),
        ),
{
    let u = spec_user_with_email(users, email);
    let s = post.last();
    lemma_uuid_text_cookie_safe(s.uuid);
    lemma_cookie_round_trip(s.uuid);
    assert(spec_parse_session_id(cookie) == Some(s.uuid));
    assert(post[post.len() - 1].uuid == s.uuid);
    assert(has_uuid(post, s.uuid));
    lemma_session_for_uuid(post, s.uuid);
    assert(spec_session_for_uuid(post, s.uuid) == s);
    lemma_user_with_email(users, email);
    assert(users.contains(u));
    let w = choose|w: int| 0 <= w < users.len() && users[w] == u;
    assert(has_user_id(users, u.id));
    lemma_user_with_id(users, u.id);
    assert(spec_user_with_id(users, u.id) == u);
}

/// After logout, the old cookie no longer authenticates and draws
/// `NotLogined`: revoking by the cookie's identifier leaves no session
/// carrying it, and every request resolves its session against the store
/// anew.
pub proof fn lemma_logout_invalidates(
    users: Seq<UserView>,
    pre: Seq<SessionView>,
    post: Seq<SessionView>,
    sid: Seq<char>,
    cookie: Seq<char>,
)
    requires
        uuid_text(sid),
        post == pre.filter(without_uuid(sid)),
        cookie == spec_session_cookie(sid),
    ensures
        spec_authenticate(users, post, Some(cookie)) == Err::<UserView, AuthError>(
            AuthError::NotLogined,
        ),
{
    lemma_uuid_text_cookie_safe(sid);
    lemma_cookie_round_trip(sid);
    assert(spec_parse_session_id(cookie) == Some(sid));
    assert forall|i: int| 0 <= i < post.len() implies (#[trigger] post[i]).uuid != sid by {
        assert(without_uuid(sid)(post[i]));
    }
    assert(!has_uuid(post, sid));
}

/// A mutating request without a client-supplied token is rejected as a bad
/// request before any session lookup, whatever cookie it carries.
pub proof fn lemma_csrf_missing_token(
    sessions: Seq<SessionView>,
    method: HttpMethod,
    cookie_header: Option<Seq<char>>,
)
    requires
        !spec_is_safe_method(method),
    ensures
        spec_csrf_check(sessions, method, None, cookie_header) == Err::<(), CsrfError>(
            CsrfError::MissingToken,
        ),
{
}

/// A mutating request whose token equals a different session's secret is
/// rejected as forbidden: CSRF secrets are unique per session, so a token
/// borrowed from another session never equals the secret of the session
/// named by the request's own cookie.
pub proof fn lemma_csrf_cross_session_rejected(
    sessions: Seq<SessionView>,
    method: HttpMethod,
    s1: SessionView,
    s2: SessionView,
    cookie: Seq<char>,
)
    requires
        !spec_is_safe_method(method),
        distinct_by(sessions, |s: SessionView| s.uuid),
        distinct_by(sessions, |s: SessionView| s.csrf_token),
        sessions.contains(s1),
        sessions.contains(s2),
        s1 != s2,
        uuid_text(s1.uuid),
        cookie == spec_session_cookie(s1.uuid),
    ensures
        spec_csrf_check(sessions, method, Some(s2.csrf_token), Some(cookie)) == Err::<
            (),
            CsrfError,
        >(CsrfError::TokenMismatch),
{
    lemma_uuid_text_cookie_safe(s1.uuid);
    lemma_cookie_round_trip(s1.uuid);
    assert(spec_parse_session_id(cookie) == Some(s1.uuid));
    let i = choose|i: int| 0 <= i < sessions.len() && sessions[i] == s1;
    assert(has_uuid(sessions, s1.uuid));
    lemma_session_for_uuid(sessions, s1.uuid);
    assert(spec_session_for_uuid(sessions, s1.uuid) == s1);
    let j = choose|j: int| 0 <= j < sessions.len() && sessions[j] == s2;
    assert(sessions[i] == s1 && sessions[j] == s2);
    assert(i != j);
    let key = |s: SessionView| s.csrf_token;
    if i < j {
        assert(key(sessions[i]) != key(sessions[j]));
    } else {
        assert(key(sessions[j]) != key(sessions[i]));
    }
    assert(s1.csrf_token != s2.csrf_token);
}

/// A mutating request whose token equals its own session's secret passes
/// the guard.
pub proof fn lemma_csrf_own_token_passes(
    sessions: Seq<SessionView>,
    method: HttpMethod,
    s: SessionView,
    cookie: Seq<char>,
)
    requires
        distinct_by(sessions, |s: SessionView| s.uuid),
        sessions.contains(s),
        uuid_text(s.uuid),
        cookie == spec_session_cookie(s.uuid),
    ensures
        spec_csrf_check(sessions, method, Some(s.csrf_token), Some(cookie)) == Ok::<
            (),
            CsrfError,
        >(()),
{
    lemma_uuid_text_cookie_safe(s.uuid);
    lemma_cookie_round_trip(s.uuid);
    assert(spec_parse_session_id(cookie) == Some(s.uuid));
    let i = choose|i: int| 0 <= i < sessions.len() && sessions[i] == s;
    assert(has_uuid(sessions, s.uuid));
    lemma_session_for_uuid(sessions, s.uuid);
    assert(spec_session_for_uuid(sessions, s.uuid) == s);
}

/// A read-only (safe-method) request is never rejected by the guard,
/// whatever token or cookie it carries or omits.
pub proof fn lemma_csrf_read_only_passes(
    sessions: Seq<SessionView>,
    method: HttpMethod,
    token_header: Option<Seq<char>>,
    cookie_header: Option<Seq<char>>,
)
    requires
        spec_is_safe_method(method),
    ensures
        spec_csrf_check(sessions, method, token_header, cookie_header) == Ok::<
            (),
            CsrfError,
        >(()),
{
}

/// Two sessions issued one after the other for the same user — as two
/// concurrent logins leave behind — carry distinct identifiers and distinct
/// secrets; revoking the first leaves the second resolvable and removes
/// only the first, and revoking by user removes both.
pub proof fn lemma_two_sessions_independent(
    pre: Seq<SessionView>,
    mid: Seq<SessionView>,
    post: Seq<SessionView>,
    user_id: int,
)
    requires
        distinct_by(post, |s: SessionView| s.uuid),
        distinct_by(post, |s: SessionView| s.csrf_token),
        appended_session(pre, mid, user_id),
        appended_session(mid, post, user_id),
    ensures
        mid.last().uuid != post.last().uuid,
        mid.last().csrf_token != post.last().csrf_token,
        post.filter(without_uuid(mid.last().uuid)).contains(post.last()),
        !has_uuid(post.filter(without_uuid(mid.last().uuid)), mid.last().uuid),
        !post.filter(without_user_id(user_id)).contains(mid.last()),
        !post.filter(without_user_id(user_id)).contains(post.last()),
{
    let s1 = mid.last();
    let s2 = post.last();
    let n = post.len();
    assert(post[n - 2] == s1);
    assert(post[n - 1] == s2);
    let uuid_key = |s: SessionView| s.uuid;
    let csrf_key = |s: SessionView| s.csrf_token;
    assert(uuid_key(post[n - 2]) != uuid_key(post[n - 1]));
    assert(csrf_key(post[n - 2]) != csrf_key(post[n - 1]));
    assert(without_uuid(s1.uuid)(post[n - 1]));
    assert(post.filter(without_uuid(s1.uuid)).contains(post[n - 1]));
    let kept = post.filter(without_uuid(s1.uuid));
    assert forall|i: int| 0 <= i < kept.len() implies (#[trigger] kept[i]).uuid != s1.uuid by {
        assert(without_uuid(s1.uuid)(kept[i]));
    }
    assert(!has_uuid(kept, s1.uuid));
    let survivors = post.filter(without_user_id(user_id));
    if survivors.contains(s1) {
        let i = choose|i: int| 0 <= i < survivors.len() && survivors[i] == s1;
        assert(without_user_id(user_id)(survivors[i]));
    }
    if survivors.contains(s2) {
        let i = choose|i: int| 0 <= i < survivors.len() && survivors[i] == s2;
        assert(without_user_id(user_id)(survivors[i]));
    }
}

} // verus!
