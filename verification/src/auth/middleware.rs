//! The authentication gate: per-request resolution of cookie → session →
//! user, short-circuiting to a specific failure at each step.

use crate::auth::errors::AuthError;
use crate::cookie::{parse_session_id, spec_parse_session_id};
use crate::models::session::SessionView;
use crate::models::user::{User, UserView};
use crate::repositories::session_repository::{has_uuid, spec_session_for_uuid};
use crate::repositories::user_repository::{has_user_id, spec_user_with_id};
use crate::AppState;
use vstd::prelude::*;

verus! {

/// The identity attached to the request for downstream handlers.
#[derive(Clone, Debug)]
pub struct AuthenticatedUser {
    pub user: User,
}

/// What session resolution answers: no cookie header, no `session_id` pair, no stored
/// session, no owning user — each a distinct failure — or the owning user of
/// the resolved session.
pub open spec fn spec_authenticate(
    users: Seq<UserView>,
    sessions: Seq<SessionView>,
    cookie_header: Option<Seq<char>>,
) -> Result<UserView, AuthError> {
    match cookie_header {
        None => Err(AuthError::MissingCookieHeader),
        Some(h) => match spec_parse_session_id(h) {
            None => Err(AuthError::MissingSessionId),
            Some(sid) => if !has_uuid(sessions, sid) {
                Err(AuthError::NotLogined)
            } else {
                let s = spec_session_for_uuid(sessions, sid);
                if !has_user_id(users, s.user_id) {
                    Err(AuthError::UserNotFound)
                } else {
                    Ok(spec_user_with_id(users, s.user_id))
                }
            },
        },
    }
}

/// The authentication gate. Every request re-resolves its session against
/// the store — there is no cross-request cache — so revoking a session makes
/// it unusable on the very next request.
pub fn session_auth_middleware(state: &AppState, cookie_header: Option<&str>) -> (r: Result<
    AuthenticatedUser,
    AuthError,
>)
    requires
        state.wf(),
    ensures
        match r {
            Ok(a) => spec_authenticate(state.users@, state.sessions@, cookie_header.deep_view())
                == Ok::<UserView, AuthError>(a.user@),
            Err(e) => spec_authenticate(state.users@, state.sessions@, cookie_header.deep_view())
                == Err::<UserView, AuthError>(e),
        },
{
    let header = match cookie_header {
        Some(h) => h,
        None => {
            return Err(AuthError::MissingCookieHeader);
        },
    };
    let session_id = match parse_session_id(header) {
        Some(s) => s,
        None => {
            return Err(AuthError::MissingSessionId);
        },
    };
    let session = match state.sessions.find_by_uuid(session_id) {
        Some(s) => s,
        None => {
            return Err(AuthError::NotLogined);
        },
    };
    proof {
        state.sessions.lemma_wf();
        assert(has_uuid(state.sessions@, session_id@));
        crate::repositories::session_repository::lemma_session_for_uuid(
            state.sessions@,
            session_id@,
        );
        assert(spec_session_for_uuid(state.sessions@, session_id@) == session@);
    }
    let user = match state.users.get_by_id(session.user_id) {
        Ok(u) => u,
        Err(_) => {
            return Err(AuthError::UserNotFound);
        },
    };
    proof {
        state.users.lemma_wf();
        crate::repositories::user_repository::lemma_user_with_id(
            state.users@,
            session.user_id as int,
        );
        assert(spec_user_with_id(state.users@, session.user_id as int) == user@);
    }
    Ok(AuthenticatedUser { user })
}

} // verus!
