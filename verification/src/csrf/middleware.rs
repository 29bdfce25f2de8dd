//! The CSRF guard: for mutating methods, a client-supplied token must equal
//! the CSRF secret of the session named by the request's own cookie.

use crate::cookie::{parse_session_id, spec_parse_session_id};
use crate::models::session::SessionView;
use crate::repositories::session_repository::{
    has_uuid,
    lemma_session_for_uuid,
    spec_session_for_uuid,
};
use crate::AppState;
use vstd::prelude::*;
use vstd::string::StrSliceExecFns;

verus! {

/// The request methods the guard distinguishes. The safe (read-only)
/// methods bypass the guard; every other method mutates and is checked.
#[derive(Debug, Clone, Copy, PartialEq, Eq, Structural)]
pub enum HttpMethod {
    Get,
    Head,
    Options,
    Post,
    Put,
    Patch,
    Delete,
}

/// Whether a method is safe: it only reads, so the guard never applies.
pub open spec fn spec_is_safe_method(m: HttpMethod) -> bool {
    m == HttpMethod::Get || m == HttpMethod::Head || m == HttpMethod::Options
}

impl HttpMethod {
    /// Whether this method is safe (read-only).
    pub fn is_safe(&self) -> (r: bool)
        ensures
            r == spec_is_safe_method(*self),
    {
        matches!(self, HttpMethod::Get | HttpMethod::Head | HttpMethod::Options)
    }
}

/// The guard's failures: no token (or no cookie to validate it against),
/// no such session, or a token that is not this session's secret.
#[derive(Debug, Clone, Copy, PartialEq, Eq, Structural)]
pub enum CsrfError {
    MissingToken,
    SessionNotFound,
    TokenMismatch,
}

/// The status each guard failure maps to: bad request, unauthorized,
/// forbidden.
pub open spec fn spec_csrf_status_code(e: CsrfError) -> u16 {
    match e {
        CsrfError::MissingToken => 400,
        CsrfError::SessionNotFound => 401,
        CsrfError::TokenMismatch => 403,
    }
}

impl CsrfError {
    /// The status code of the response this rejection turns into.
    pub fn status_code(&self) -> (r: u16)
        ensures
            r == spec_csrf_status_code(*self),
    {
        match self {
            CsrfError::MissingToken => 400,
            CsrfError::SessionNotFound => 401,
            CsrfError::TokenMismatch => 403,
        }
    }
}

/// What the guard answers. A safe method passes unconditionally. A mutating
/// request needs a token header and a decodable session cookie (else it is
/// a bad request), a stored session under the cookie's identifier (else
/// unauthorized), and a token equal to that session's secret (else
/// forbidden).
pub open spec fn spec_csrf_check(
    sessions: Seq<SessionView>,
    method: HttpMethod,
    token_header: Option<Seq<char>>,
    cookie_header: Option<Seq<char>>,
) -> Result<(), CsrfError> {
    if spec_is_safe_method(method) {
        Ok(())
    } else {
        match token_header {
            None => Err(CsrfError::MissingToken),
            Some(token) => match cookie_header {
                None => Err(CsrfError::MissingToken),
                Some(h) => match spec_parse_session_id(h) {
                    None => Err(CsrfError::MissingToken),
                    Some(sid) => if !has_uuid(sessions, sid) {
                        Err(CsrfError::SessionNotFound)
                    } else if spec_session_for_uuid(sessions, sid).csrf_token != token {
                        Err(CsrfError::TokenMismatch)
                    } else {
                        Ok(())
                    },
                },
            },
        }
    }
}

/// Whether two strings hold the same characters, compared in full: the loop
/// never exits early on a mismatch, so unequal prefixes do not shorten the
/// comparison of equal-length secrets.
#[verifier::loop_isolation(false)]
pub fn constant_time_str_eq(a: &str, b: &str) -> (r: bool)
    ensures
        r == (a@ == b@),
{
    let na = a.unicode_len();
    let nb = b.unicode_len();
    if na != nb {
        return false;
    }
    let mut same = true;
    let mut i: usize = 0;
    while i < na
        invariant
            i <= na,
            same == (forall|k: int| 0 <= k < i ==> a@[k] == b@[k]),
        decreases na - i,
    {
        let ca = a.get_char(i);
        let cb = b.get_char(i);
        same = same && (ca == cb);
        i += 1;
    }
    proof {
        if same {
            assert(a@ =~= b@);
        }
    }
    same
}

/// The CSRF guard. It performs its own cookie decode and store lookup,
/// independent of the authentication gate's, and compares the secret with
/// the full-length comparison above.
pub fn csrf_protection_middleware(
    state: &AppState,
    method: HttpMethod,
    csrf_token_header: Option<&str>,
    cookie_header: Option<&str>,
) -> (r: Result<(), CsrfError>)
    requires
        state.wf(),
    ensures
        r == spec_csrf_check(
            state.sessions@,
            method,
            csrf_token_header.deep_view(),
            cookie_header.deep_view(),
        ),
{
    if method.is_safe() {
        return Ok(());
    }
    let token = match csrf_token_header {
        Some(t) => t,
        None => {
            return Err(CsrfError::MissingToken);
        },
    };
    let header = match cookie_header {
        Some(h) => h,
        None => {
            return Err(CsrfError::MissingToken);
        },
    };
    let session_id = match parse_session_id(header) {
        Some(s) => s,
        None => {
            return Err(CsrfError::MissingToken);
        },
    };
    let session = match state.sessions.find_by_uuid(session_id) {
        Some(s) => s,
        None => {
            return Err(CsrfError::SessionNotFound);
        },
    };
    proof {
        state.sessions.lemma_wf();
        assert(has_uuid(state.sessions@, session_id@));
        lemma_session_for_uuid(state.sessions@, session_id@);
        assert(spec_session_for_uuid(state.sessions@, session_id@) == session@);
    }
    if !constant_time_str_eq(token, session.csrf_token.as_str()) {
        return Err(CsrfError::TokenMismatch);
    }
    Ok(())
}

} // verus!
