//! A login session: a public bearer identifier and a per-session CSRF secret.

use vstd::prelude::*;

verus! {

/// The characters that a rendered session identifier is made of: lowercase
/// hexadecimal digits and hyphens.
pub open spec fn uuid_char(c: char) -> bool {
    ||| c == '-'
    ||| '0' as u32 <= c as u32 && c as u32 <= '9' as u32
    ||| 'a' as u32 <= c as u32 && c as u32 <= 'f' as u32
}

/// A well-formed rendered identifier: 36 characters, hexadecimal or hyphen.
pub open spec fn uuid_text(s: Seq<char>) -> bool {
    &&& s.len() == 36
    &&& forall|k: int| 0 <= k < s.len() ==> uuid_char(#[trigger] s[k])
}

/// The mathematical content of a session record.
pub ghost struct SessionView {
    pub id: int,
    pub user_id: int,
    pub uuid: Seq<char>,
    pub csrf_token: Seq<char>,
    pub issued_at: int,
    pub device_info: Option<Seq<char>>,
    pub ip_address: Option<Seq<char>>,
    pub created_at: int,
    pub updated_at: int,
}

/// A session record. `uuid` is the public identifier sent to the client in a
/// cookie and treated as a bearer credential; `csrf_token` is an independent
/// secret bound to this session alone, disclosed only to the page served to
/// the holder of the cookie. Both are drawn from a cryptographically secure
/// random source. Timestamps are microseconds since the Unix epoch.
#[derive(Debug)]
pub struct Session {
    pub id: i64,
    pub user_id: i64,
    pub uuid: String,
    pub csrf_token: String,
    pub issued_at: i64,
    pub device_info: Option<String>,
    pub ip_address: Option<String>,
    pub created_at: i64,
    pub updated_at: i64,
}

impl View for Session {
    type V = SessionView;

    open spec fn view(&self) -> SessionView {
        SessionView {
            id: self.id as int,
            user_id: self.user_id as int,
            uuid: self.uuid@,
            csrf_token: self.csrf_token@,
            issued_at: self.issued_at as int,
            device_info: self.device_info.deep_view(),
            ip_address: self.ip_address.deep_view(),
            created_at: self.created_at as int,
            updated_at: self.updated_at as int,
        }
    }
}

impl DeepView for Session {
    type V = SessionView;

    open spec fn deep_view(&self) -> SessionView {
        self.view()
    }
}

/// Relies on `uuid::Uuid::new_v4` and uuid's `Display` impl: a version-4
/// identifier drawn from a cryptographically secure random source, rendered
/// hyphenated as 36 lowercase hexadecimal digits and hyphens. Nothing is
/// assumed about which value comes back.
#[verifier::external_body]
fn fresh_token() -> (r: String)
    ensures
        uuid_text(r@),
{
    uuid::Uuid::new_v4().to_string()
}

/// Relies on `chrono::Utc::now`: the current time, in microseconds since the
/// Unix epoch. Nothing is assumed of the value.
#[verifier::external_body]
pub(crate) fn current_timestamp_micros() -> (r: i64)
{
    chrono::Utc::now().timestamp_micros()
}

impl Clone for Session {
    fn clone(&self) -> (r: Self)
        ensures
            r == *self,
    {
        Session {
            id: self.id,
            user_id: self.user_id,
            uuid: self.uuid.clone(),
            csrf_token: self.csrf_token.clone(),
            issued_at: self.issued_at,
            device_info: match &self.device_info {
                Some(d) => Some(d.clone()),
                None => None,
            },
            ip_address: match &self.ip_address {
                Some(a) => Some(a.clone()),
                None => None,
            },
            created_at: self.created_at,
            updated_at: self.updated_at,
        }
    }
}

impl Session {
    /// Issues a new, not yet persisted session for `user_id`: two fresh,
    /// independently drawn random tokens (the public identifier and the CSRF
    /// secret) and the current time on every timestamp. The id is zero until
    /// the store assigns one.
    pub fn new(user_id: i64, device_info: Option<String>, ip_address: Option<String>) -> (s:
        Session)
        ensures
            s@.id == 0,
            s@.user_id == user_id as int,
            uuid_text(s@.uuid),
            uuid_text(s@.csrf_token),
            s@.device_info == device_info.deep_view(),
            s@.ip_address == ip_address.deep_view(),
            s@.issued_at == s@.created_at,
            s@.updated_at == s@.created_at,
    {
        let session_uuid = fresh_token();
        let csrf_token_uuid = fresh_token();
        let now = current_timestamp_micros();
        Session {
            id: 0,
            user_id,
            uuid: session_uuid,
            csrf_token: csrf_token_uuid,
            issued_at: now,
            device_info,
            ip_address,
            created_at: now,
            updated_at: now,
        }
    }

    /// The public identifier that names this session in a cookie.
    pub fn get_session_uuid(&self) -> (r: &str)
        ensures
            r@ == self@.uuid,
    {
        self.uuid.as_str()
    }
}

} // verus!
