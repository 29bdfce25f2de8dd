//! The session store: creation, point lookup by public identifier, and the
//! two idempotent revocations (single session, every session of a user).

use crate::models::session::{current_timestamp_micros, Session, SessionView};
use crate::repositories::{distinct_by, lemma_filter_distinct_by, StoreError};
use vstd::prelude::*;

verus! {

/// Some stored session carries this public identifier.
pub open spec fn has_uuid(sessions: Seq<SessionView>, uuid: Seq<char>) -> bool {
    exists|i: int| 0 <= i < sessions.len() && sessions[i].uuid == uuid
}

/// Some stored session carries this CSRF secret.
pub open spec fn has_csrf_token(sessions: Seq<SessionView>, token: Seq<char>) -> bool {
    exists|i: int| 0 <= i < sessions.len() && sessions[i].csrf_token == token
}

/// The records that survive deleting this public identifier.
pub open spec fn without_uuid(uuid: Seq<char>) -> spec_fn(SessionView) -> bool {
    |s: SessionView| s.uuid != uuid
}

/// The records that survive revoking every session of this user.
pub open spec fn without_user_id(user_id: int) -> spec_fn(SessionView) -> bool {
    |s: SessionView| s.user_id != user_id
}

/// The stored session carrying this identifier; meaningful when `has_uuid`
/// holds, and unambiguous when identifiers are unique.
pub open spec fn spec_session_for_uuid(sessions: Seq<SessionView>, uuid: Seq<char>) -> SessionView {
    sessions[choose|i: int| 0 <= i < sessions.len() && sessions[i].uuid == uuid]
}

/// Under uniqueness of identifiers, `spec_session_for_uuid` is the one
/// stored session carrying the identifier.
pub proof fn lemma_session_for_uuid(sessions: Seq<SessionView>, uuid: Seq<char>)
    requires
        has_uuid(sessions, uuid),
        distinct_by(sessions, |s: SessionView| s.uuid),
    ensures
        sessions.contains(spec_session_for_uuid(sessions, uuid)),
        spec_session_for_uuid(sessions, uuid).uuid == uuid,
        forall|i: int|
            0 <= i < sessions.len() && sessions[i].uuid == uuid ==> sessions[i]
                == spec_session_for_uuid(sessions, uuid),
{
    let c = choose|i: int| 0 <= i < sessions.len() && sessions[i].uuid == uuid;
    assert(sessions.contains(sessions[c]));
    assert forall|i: int|
        0 <= i < sessions.len() && sessions[i].uuid == uuid implies sessions[i] == sessions[c] by {
        let key = |s: SessionView| s.uuid;
        if i < c {
            assert(key(sessions[i]) != key(sessions[c]));
        } else if c < i {
            assert(key(sessions[c]) != key(sessions[i]));
        }
    }
}

/// The session store. Public identifiers and CSRF secrets are each unique
/// across all records (the two unique indexes of the persisted layout); ids
/// are assigned by the store, starting at one and never reused.
pub struct SessionRepository {
    sessions: Vec<Session>,
    next_id: i64,
}

impl View for SessionRepository {
    type V = Seq<SessionView>;

    closed spec fn view(&self) -> Seq<SessionView> {
        self.sessions.deep_view()
    }
}

impl SessionRepository {
    /// The store's invariant: unique identifiers, unique CSRF secrets,
    /// unique positive ids below the next one to assign.
    pub closed spec fn wf(&self) -> bool {
        &&& 1 <= self.next_id
        &&& forall|k: int|
            0 <= k < self.sessions.deep_view().len() ==> 1 <= (
            #[trigger] self.sessions.deep_view()[k]).id < self.next_id
        &&& distinct_by(self.sessions.deep_view(), |s: SessionView| s.uuid)
        &&& distinct_by(self.sessions.deep_view(), |s: SessionView| s.csrf_token)
        &&& distinct_by(self.sessions.deep_view(), |s: SessionView| s.id)
    }

    /// Ids have not run out yet.
    pub closed spec fn id_headroom(&self) -> bool {
        self.next_id < i64::MAX
    }

    /// What well-formedness guarantees of the visible records: no two
    /// sessions share a public identifier or a CSRF secret.
    pub proof fn lemma_wf(&self)
        requires
            self.wf(),
        ensures
            distinct_by(self@, |s: SessionView| s.uuid),
            distinct_by(self@, |s: SessionView| s.csrf_token),
            distinct_by(self@, |s: SessionView| s.id),
    {
    }

    /// An empty store.
    pub fn new() -> (r: Self)
        ensures
            r@ =~= Seq::<SessionView>::empty(),
            r.wf(),
            r.id_headroom(),
    {
        SessionRepository { sessions: Vec::new(), next_id: 1 }
    }

    fn exists_csrf_token(&self, token: &str) -> (r: bool)
        ensures
            r == has_csrf_token(self@, token@),
    {
        let wanted = String::from_str(token);
        let n = self.sessions.len();
        let mut i: usize = 0;
        while i < n
            invariant
                i <= n,
                n == self@.len(),
                wanted@ == token@,
                forall|k: int| 0 <= k < i ==> (#[trigger] self@[k]).csrf_token != token@,
            decreases n - i,
        {
            if self.sessions[i].csrf_token == wanted {
                assert(self@[i as int].csrf_token == token@);
                return true;
            }
            i += 1;
        }
        false
    }

    fn exists_uuid(&self, uuid: &str) -> (r: bool)
        ensures
            r == has_uuid(self@, uuid@),
    {
        match self.find_by_uuid(uuid) {
            Some(_) => true,
            None => false,
        }
    }

    /// Point lookup by public session identifier.
    pub fn find_by_uuid(&self, session_uuid: &str) -> (r: Option<Session>)
        ensures
            match r {
                Some(s) => self@.contains(s@) && s@.uuid == session_uuid@,
                None => !has_uuid(self@, session_uuid@),
            },
    {
        let wanted = String::from_str(session_uuid);
        let n = self.sessions.len();
        let mut i: usize = 0;
        while i < n
            invariant
                i <= n,
                n == self@.len(),
                wanted@ == session_uuid@,
                forall|k: int| 0 <= k < i ==> (#[trigger] self@[k]).uuid != session_uuid@,
            decreases n - i,
        {
            if self.sessions[i].uuid == wanted {
                let s = self.sessions[i].clone();
                assert(self@[i as int] == s@);
                return Some(s);
            }
            i += 1;
        }
        None
    }

    /// Atomic insert of a new session record. Fails with `Conflict` exactly
    /// when the record's identifier or CSRF secret collides with a stored
    /// session (the unique indexes), and with `Unavailable` exactly when no
    /// id is left; on success the record is appended with a fresh id, the
    /// caller's tokens and issue stamp, and equal creation and update stamps.
    pub fn create(&mut self, session: &Session) -> (r: Result<i64, StoreError>)
        requires
            old(self).wf(),
        ensures
            final(self).wf(),
            r == Err::<i64, StoreError>(StoreError::Conflict) <==> (has_uuid(
                old(self)@,
                session@.uuid,
            ) || has_csrf_token(old(self)@, session@.csrf_token)),
            r == Err::<i64, StoreError>(StoreError::Unavailable) <==> (!has_uuid(
                old(self)@,
                session@.uuid,
            ) && !has_csrf_token(old(self)@, session@.csrf_token) && !old(self).id_headroom()),
            r is Ok <==> (!has_uuid(old(self)@, session@.uuid) && !has_csrf_token(
                old(self)@,
                session@.csrf_token,
            ) && old(self).id_headroom()),
            r is Err ==> final(self)@ == old(self)@,
            r matches Ok(id) ==> {
                &&& 1 <= id
                &&& final(self)@.len() == old(self)@.len() + 1
                &&& final(self)@ == old(self)@.push(final(self)@.last())
                &&& final(self)@.last().id == id as int
                &&& final(self)@.last().user_id == session@.user_id
                &&& final(self)@.last().uuid == session@.uuid
                &&& final(self)@.last().csrf_token == session@.csrf_token
                &&& final(self)@.last().issued_at == session@.issued_at
                &&& final(self)@.last().device_info == session@.device_info
                &&& final(self)@.last().ip_address == session@.ip_address
                &&& final(self)@.last().created_at == final(self)@.last().updated_at
            },
    {
        if self.exists_uuid(session.get_session_uuid()) {
            return Err(StoreError::Conflict);
        }
        if self.exists_csrf_token(session.csrf_token.as_str()) {
            return Err(StoreError::Conflict);
        }
        if self.next_id == i64::MAX {
            return Err(StoreError::Unavailable);
        }
        let id = self.next_id;
        self.next_id = self.next_id + 1;
        let now = current_timestamp_micros();
        let mut stored = session.clone();
        stored.id = id;
        stored.created_at = now;
        stored.updated_at = now;
        self.sessions.push(stored);
        proof {
            assert(self@ =~= old(self)@.push(self@.last()));
            assert forall|i: int, j: int| 0 <= i < j < self@.len() implies (#[trigger] self@[i]).id
                != (#[trigger] self@[j]).id by {
                if j == self@.len() - 1 {
                    assert(old(self)@[i].id < id as int);
                }
            }
            assert forall|i: int, j: int|
                0 <= i < j < self@.len() implies (#[trigger] self@[i]).uuid != (
            #[trigger] self@[j]).uuid by {
                if j == self@.len() - 1 {
                    assert(old(self)@[i].uuid != session@.uuid);
                }
            }
            assert forall|i: int, j: int|
                0 <= i < j < self@.len() implies (#[trigger] self@[i]).csrf_token != (
            #[trigger] self@[j]).csrf_token by {
                if j == self@.len() - 1 {
                    assert(old(self)@[i].csrf_token != session@.csrf_token);
                }
            }
        }
        Ok(id)
    }

    /// Idempotent revocation of the session named by this identifier:
    /// deleting an absent identifier changes nothing and is not an error.
    /// The identifier and its CSRF secret become invalid together.
    #[verifier::loop_isolation(false)]
    pub fn delete_by_uuid(&mut self, session_uuid: &str)
        requires
            old(self).wf(),
        ensures
            final(self).wf(),
            final(self)@ == old(self)@.filter(without_uuid(session_uuid@)),
    {
        let ghost pred = without_uuid(session_uuid@);
        proof {
            assert(forall|s: SessionView| #[trigger] pred(s) == (s.uuid != session_uuid@));
        }
        let wanted = String::from_str(session_uuid);
        let n = self.sessions.len();
        let mut kept: Vec<Session> = Vec::new();
        let mut i: usize = 0;
        while i < n
            invariant
                i <= n,
                *self == *old(self),
                n == self@.len(),
                wanted@ == session_uuid@,
                kept.deep_view() == self@.subrange(0, i as int).filter(pred),
            decreases n - i,
        {
            let ghost prefix = kept.deep_view();
            let keep = !(self.sessions[i].uuid == wanted);
            if keep {
                kept.push(self.sessions[i].clone());
            }
            proof {
                reveal(Seq::filter);
                let sub0 = self@.subrange(0, i as int);
                let sub1 = self@.subrange(0, i as int + 1);
                assert(sub1.drop_last() =~= sub0);
                assert(sub1.last() == self@[i as int]);
                if keep {
                    assert(kept.deep_view() =~= prefix.push(self@[i as int]));
                } else {
                    assert(kept.deep_view() =~= prefix);
                }
                assert(kept.deep_view() =~= sub1.filter(pred));
            }
            i += 1;
        }
        proof {
            assert(self@.subrange(0, n as int) =~= self@);
        }
        self.sessions = kept;
        proof {
            lemma_filter_distinct_by(old(self)@, pred, |s: SessionView| s.uuid);
            lemma_filter_distinct_by(old(self)@, pred, |s: SessionView| s.csrf_token);
            lemma_filter_distinct_by(old(self)@, pred, |s: SessionView| s.id);
            assert forall|k: int| 0 <= k < self@.len() implies 1 <= (#[trigger] self@[k]).id
                < self.next_id by {
                assert(self@.contains(self@[k]));
                old(self)@.lemma_filter_contains_rev(pred, self@[k]);
                let w = choose|w: int| 0 <= w < old(self)@.len() && old(self)@[w] == self@[k];
            }
        }
    }

    /// Idempotent bulk revocation of every session owned by this user
    /// (revoke all devices); deleting for a user with no sessions changes
    /// nothing and is not an error.
    #[verifier::loop_isolation(false)]
    pub fn delete_by_user_id(&mut self, user_id: i64)
        requires
            old(self).wf(),
        ensures
            final(self).wf(),
            final(self)@ == old(self)@.filter(without_user_id(user_id as int)),
    {
        let ghost pred = without_user_id(user_id as int);
        proof {
            assert(forall|s: SessionView| #[trigger] pred(s) == (s.user_id != user_id as int));
        }
        let n = self.sessions.len();
        let mut kept: Vec<Session> = Vec::new();
        let mut i: usize = 0;
        while i < n
            invariant
                i <= n,
                *self == *old(self),
                n == self@.len(),
                kept.deep_view() == self@.subrange(0, i as int).filter(pred),
            decreases n - i,
        {
            let ghost prefix = kept.deep_view();
            let keep = !(self.sessions[i].user_id == user_id);
            if keep {
                kept.push(self.sessions[i].clone());
            }
            proof {
                reveal(Seq::filter);
                let sub1 = self@.subrange(0, i as int + 1);
                assert(sub1.drop_last() =~= self@.subrange(0, i as int));
                assert(sub1.last() == self@[i as int]);
                if keep {
                    assert(kept.deep_view() =~= prefix.push(self@[i as int]));
                } else {
                    assert(kept.deep_view() =~= prefix);
                }
                assert(kept.deep_view() =~= sub1.filter(pred));
            }
            i += 1;
        }
        proof {
            assert(self@.subrange(0, n as int) =~= self@);
        }
        self.sessions = kept;
        proof {
            lemma_filter_distinct_by(old(self)@, pred, |s: SessionView| s.uuid);
            lemma_filter_distinct_by(old(self)@, pred, |s: SessionView| s.csrf_token);
            lemma_filter_distinct_by(old(self)@, pred, |s: SessionView| s.id);
            assert forall|k: int| 0 <= k < self@.len() implies 1 <= (#[trigger] self@[k]).id
                < self.next_id by {
                assert(self@.contains(self@[k]));
                old(self)@.lemma_filter_contains_rev(pred, self@[k]);
                let w = choose|w: int| 0 <= w < old(self)@.len() && old(self)@[w] == self@[k];
            }
        }
    }
}

} // verus!
