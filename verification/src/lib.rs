//! Session and CSRF security subsystem of a small web application.
//!
//! The library issues, validates and revokes server-tracked login sessions
//! and protects state-changing requests against cross-site request forgery.
//! It covers the session and user stores, the credential verifier, the
//! cookie codec, the authentication gate and the CSRF guard; HTTP routing,
//! templating and durable storage live outside the library.

pub mod auth;
pub mod config;
pub mod cookie;
pub mod csrf;
pub mod laws;
pub mod manifest;
pub mod models;
pub mod repositories;

use crate::config::AppConfig;
use crate::cookie::spec_parse_session_id;
use crate::models::session::SessionView;
use crate::repositories::session_repository::{
    has_uuid,
    lemma_session_for_uuid,
    spec_session_for_uuid,
};
use crate::repositories::session_repository::SessionRepository;
use crate::repositories::user_repository::UserRepository;
use vstd::prelude::*;

verus! {

/// The state shared by every request: the two stores and the configuration.
pub struct AppState {
    pub users: UserRepository,
    pub sessions: SessionRepository,
    pub config: AppConfig,
}

impl AppState {
    /// Both stores are well-formed.
    pub open spec fn wf(&self) -> bool {
        &&& self.users.wf()
        &&& self.sessions.wf()
    }

    /// A fresh state around empty stores.
    pub fn new(config: AppConfig) -> (r: AppState)
        ensures
            r.wf(),
            r.users@ =~= Seq::<crate::models::user::UserView>::empty(),
            r.sessions@ =~= Seq::<SessionView>::empty(),
            r.config == config,
    {
        AppState { users: UserRepository::new(), sessions: SessionRepository::new(), config }
    }
}

/// The CSRF secret the initial page render embeds when the request carries a
/// valid session cookie: the token of the cookie's session, or nothing.
pub open spec fn spec_csrf_token_for(
    sessions: Seq<SessionView>,
    cookie_header: Option<Seq<char>>,
) -> Option<Seq<char>> {
    match cookie_header {
        None => None,
        Some(h) => match spec_parse_session_id(h) {
            None => None,
            Some(sid) => if has_uuid(sessions, sid) {
                Some(spec_session_for_uuid(sessions, sid).csrf_token)
            } else {
                None
            },
        },
    }
}

/// Resolves the request's session and hands back its CSRF secret for the
/// page render to embed — the sole sanctioned channel for the client to
/// learn its token.
pub fn csrf_token_for_request(state: &AppState, cookie_header: Option<&str>) -> (r: Option<
    String,
>)
    requires
        state.wf(),
    ensures
        r.deep_view() == spec_csrf_token_for(state.sessions@, cookie_header.deep_view()),
{
    let header = match cookie_header {
        Some(h) => h,
        None => {
            return None;
        },
    };
    let session_id = match crate::cookie::parse_session_id(header) {
        Some(s) => s,
        None => {
            return None;
        },
    };
    let session = match state.sessions.find_by_uuid(session_id) {
        Some(s) => s,
        None => {
            return None;
        },
    };
    proof {
        state.sessions.lemma_wf();
        assert(has_uuid(state.sessions@, session_id@));
        lemma_session_for_uuid(state.sessions@, session_id@);
        assert(spec_session_for_uuid(state.sessions@, session_id@) == session@);
    }
    Some(session.csrf_token)
}

} // verus!
