//! The user store: lookup by email or id, creation, password update.

use crate::models::session::current_timestamp_micros;
use crate::models::user::{User, UserView};
use crate::repositories::{distinct_by, StoreError};
use vstd::prelude::*;

verus! {

/// Some stored user carries exactly this email.
pub open spec fn has_email(users: Seq<UserView>, email: Seq<char>) -> bool {
    exists|i: int| 0 <= i < users.len() && users[i].email == email
}

/// Some stored user carries this id.
pub open spec fn has_user_id(users: Seq<UserView>, id: int) -> bool {
    exists|i: int| 0 <= i < users.len() && users[i].id == id
}

/// The stored user carrying this email; meaningful when `has_email` holds,
/// and unambiguous when emails are unique.
pub open spec fn spec_user_with_email(users: Seq<UserView>, email: Seq<char>) -> UserView {
    users[choose|i: int| 0 <= i < users.len() && users[i].email == email]
}

/// The stored user carrying this id; meaningful when `has_user_id` holds,
/// and unambiguous when ids are unique.
pub open spec fn spec_user_with_id(users: Seq<UserView>, id: int) -> UserView {
    users[choose|i: int| 0 <= i < users.len() && users[i].id == id]
}

/// Under uniqueness of emails, `spec_user_with_email` is the one stored
/// user carrying the email.
pub proof fn lemma_user_with_email(users: Seq<UserView>, email: Seq<char>)
    requires
        has_email(users, email),
        distinct_by(users, |u: UserView| u.email),
    ensures
        users.contains(spec_user_with_email(users, email)),
        spec_user_with_email(users, email).email == email,
        forall|i: int|
            0 <= i < users.len() && users[i].email == email ==> users[i] == spec_user_with_email(
                users,
                email,
            ),
{
    let c = choose|i: int| 0 <= i < users.len() && users[i].email == email;
    assert(users.contains(users[c]));
    assert forall|i: int|
        0 <= i < users.len() && users[i].email == email implies users[i] == users[c] by {
        let key = |u: UserView| u.email;
        if i < c {
            assert(key(users[i]) != key(users[c]));
        } else if c < i {
            assert(key(users[c]) != key(users[i]));
        }
    }
}

/// Under uniqueness of ids, `spec_user_with_id` is the one stored user
/// carrying the id.
pub proof fn lemma_user_with_id(users: Seq<UserView>, id: int)
    requires
        has_user_id(users, id),
        distinct_by(users, |u: UserView| u.id),
    ensures
        users.contains(spec_user_with_id(users, id)),
        spec_user_with_id(users, id).id == id,
        forall|i: int|
            0 <= i < users.len() && users[i].id == id ==> users[i] == spec_user_with_id(users, id),
{
    let c = choose|i: int| 0 <= i < users.len() && users[i].id == id;
    assert(users.contains(users[c]));
    assert forall|i: int| 0 <= i < users.len() && users[i].id == id implies users[i]
        == users[c] by {
        let key = |u: UserView| u.id;
        if i < c {
            assert(key(users[i]) != key(users[c]));
        } else if c < i {
            assert(key(users[c]) != key(users[i]));
        }
    }
}

/// The user store. Emails and ids are unique across all records; ids are
/// assigned by the store, starting at one and never reused.
pub struct UserRepository {
    users: Vec<User>,
    next_id: i64,
}

impl View for UserRepository {
    type V = Seq<UserView>;

    closed spec fn view(&self) -> Seq<UserView> {
        self.users.deep_view()
    }
}

impl UserRepository {
    /// The store's invariant: unique emails, unique positive ids, and every
    /// id below the next one to assign.
    pub closed spec fn wf(&self) -> bool {
        &&& 1 <= self.next_id
        &&& forall|k: int|
            0 <= k < self.users.deep_view().len() ==> 1 <= (
            #[trigger] self.users.deep_view()[k]).id < self.next_id
        &&& distinct_by(self.users.deep_view(), |u: UserView| u.email)
        &&& distinct_by(self.users.deep_view(), |u: UserView| u.id)
    }

    /// Ids have not run out yet.
    pub closed spec fn id_headroom(&self) -> bool {
        self.next_id < i64::MAX
    }

    /// What well-formedness guarantees of the visible records.
    pub proof fn lemma_wf(&self)
        requires
            self.wf(),
        ensures
            distinct_by(self@, |u: UserView| u.email),
            distinct_by(self@, |u: UserView| u.id),
            forall|k: int| 0 <= k < self@.len() ==> (#[trigger] self@[k]).id >= 1,
    {
    }

    /// An empty store.
    pub fn new() -> (r: Self)
        ensures
            r@ =~= Seq::<UserView>::empty(),
            r.wf(),
            r.id_headroom(),
    {
        UserRepository { users: Vec::new(), next_id: 1 }
    }

    /// Point lookup by exact email; no normalization of any kind.
    pub fn find_by_email(&self, email: &str) -> (r: Option<User>)
        ensures
            match r {
                Some(u) => self@.contains(u@) && u@.email == email@,
                None => !has_email(self@, email@),
            },
    {
        let wanted = String::from_str(email);
        let n = self.users.len();
        let mut i: usize = 0;
        while i < n
            invariant
                i <= n,
                n == self@.len(),
                wanted@ == email@,
                forall|k: int| 0 <= k < i ==> (#[trigger] self@[k]).email != email@,
            decreases n - i,
        {
            if self.users[i].email == wanted {
                let u = self.users[i].clone();
                assert(self@[i as int] == u@);
                return Some(u);
            }
            i += 1;
        }
        None
    }

    /// Point lookup by id.
    pub fn find_by_id(&self, id: i64) -> (r: Option<User>)
        ensures
            match r {
                Some(u) => self@.contains(u@) && u@.id == id as int,
                None => !has_user_id(self@, id as int),
            },
    {
        let n = self.users.len();
        let mut i: usize = 0;
        while i < n
            invariant
                i <= n,
                n == self@.len(),
                forall|k: int| 0 <= k < i ==> (#[trigger] self@[k]).id != id as int,
            decreases n - i,
        {
            if self.users[i].id == id {
                let u = self.users[i].clone();
                assert(self@[i as int] == u@);
                return Some(u);
            }
            i += 1;
        }
        None
    }

    /// Lookup by id for callers that expect the user to exist; absence is a
    /// store error rather than an option.
    pub fn get_by_id(&self, id: i64) -> (r: Result<User, StoreError>)
        ensures
            match r {
                Ok(u) => self@.contains(u@) && u@.id == id as int,
                Err(e) => e == StoreError::NotFound && !has_user_id(self@, id as int),
            },
            r is Ok <==> has_user_id(self@, id as int),
    {
        match self.find_by_id(id) {
            Some(u) => Ok(u),
            None => Err(StoreError::NotFound),
        }
    }

    /// Whether a user with exactly this email exists.
    pub fn exists_by_email(&self, email: &str) -> (r: bool)
        ensures
            r == has_email(self@, email@),
    {
        match self.find_by_email(email) {
            Some(_) => true,
            None => false,
        }
    }

    /// Atomic insert of a new user. Fails with `Conflict` exactly when the
    /// email is already taken, and with `Unavailable` exactly when the store
    /// has no id left to assign; on success the new record is appended with a
    /// fresh id and equal creation and update stamps.
    pub fn create(&mut self, email: &str, password_hash: &str) -> (r: Result<i64, StoreError>)
        requires
            old(self).wf(),
        ensures
            final(self).wf(),
            r == Err::<i64, StoreError>(StoreError::Conflict) <==> has_email(old(self)@, email@),
            r == Err::<i64, StoreError>(StoreError::Unavailable) <==> (!has_email(
                old(self)@,
                email@,
            ) && !old(self).id_headroom()),
            r is Ok <==> (!has_email(old(self)@, email@) && old(self).id_headroom()),
            r is Err ==> final(self)@ == old(self)@,
            r matches Ok(id) ==> {
                &&& 1 <= id
                &&& !has_user_id(old(self)@, id as int)
                &&& final(self)@.len() == old(self)@.len() + 1
                &&& final(self)@ == old(self)@.push(final(self)@.last())
                &&& final(self)@.last().id == id as int
                &&& final(self)@.last().email == email@
                &&& final(self)@.last().password == password_hash@
                &&& final(self)@.last().created_at == final(self)@.last().updated_at
            },
    {
        if self.exists_by_email(email) {
            return Err(StoreError::Conflict);
        }
        if self.next_id == i64::MAX {
            return Err(StoreError::Unavailable);
        }
        let id = self.next_id;
        self.next_id = self.next_id + 1;
        let now = current_timestamp_micros();
        let user = User {
            id,
            email: String::from_str(email),
            password: String::from_str(password_hash),
            updated_at: now,
            created_at: now,
        };
        self.users.push(user);
        proof {
            assert(self@ =~= old(self)@.push(self@.last()));
            assert forall|i: int, j: int| 0 <= i < j < self@.len() implies (#[trigger] self@[i]).id
                != (#[trigger] self@[j]).id by {
                if j == self@.len() - 1 {
                    assert(old(self)@[i].id < id as int);
                }
            }
            assert forall|i: int, j: int|
                0 <= i < j < self@.len() implies (#[trigger] self@[i]).email != (
            #[trigger] self@[j]).email by {
                if j == self@.len() - 1 {
                    assert(!has_email(old(self)@, email@));
                    assert(old(self)@[i].email != email@);
                }
            }
        }
        Ok(id)
    }

    /// Sets a new password hash (and update stamp) on the user with this id;
    /// updating an absent id changes nothing and is not an error.
    pub fn update_password(&mut self, id: i64, password_hash: &str) -> (r: Result<
        (),
        StoreError,
    >)
        requires
            old(self).wf(),
        ensures
            final(self).wf(),
            r is Ok,
            final(self)@.len() == old(self)@.len(),
            forall|k: int|
                0 <= k < final(self)@.len() && (#[trigger] old(self)@[k]).id != id as int ==> final(self)@[k]
                    == old(self)@[k],
            forall|k: int|
                0 <= k < final(self)@.len() && (#[trigger] old(self)@[k]).id == id as int ==> {
                    &&& final(self)@[k].id == old(self)@[k].id
                    &&& final(self)@[k].email == old(self)@[k].email
                    &&& final(self)@[k].password == password_hash@
                    &&& final(self)@[k].created_at == old(self)@[k].created_at
                },
    {
        let n = self.users.len();
        let mut updated: Vec<User> = Vec::new();
        let mut i: usize = 0;
        while i < n
            invariant
                i <= n,
                *self == *old(self),
                n == self@.len(),
                updated.deep_view().len() == i,
                forall|k: int|
                    0 <= k < i && (#[trigger] self@[k]).id != id as int ==> updated.deep_view()[k]
                        == self@[k],
                forall|k: int|
                    0 <= k < i && (#[trigger] self@[k]).id == id as int ==> {
                        &&& updated.deep_view()[k].id == self@[k].id
                        &&& updated.deep_view()[k].email == self@[k].email
                        &&& updated.deep_view()[k].password == password_hash@
                        &&& updated.deep_view()[k].created_at == self@[k].created_at
                    },
            decreases n - i,
        {
            let u = &self.users[i];
            if u.id == id {
                let now = current_timestamp_micros();
                updated.push(
                    User {
                        id: u.id,
                        email: u.email.clone(),
                        password: String::from_str(password_hash),
                        updated_at: now,
                        created_at: u.created_at,
                    },
                );
            } else {
                updated.push(u.clone());
            }
            i += 1;
        }
        self.users = updated;
        proof {
            assert forall|i2: int, j: int| 0 <= i2 < j < self@.len() implies (
            #[trigger] self@[i2]).email != (#[trigger] self@[j]).email by {
                assert(self@[i2].email == old(self)@[i2].email);
                assert(self@[j].email == old(self)@[j].email);
            }
            assert forall|i2: int, j: int| 0 <= i2 < j < self@.len() implies (
            #[trigger] self@[i2]).id != (#[trigger] self@[j]).id by {
                assert(self@[i2].id == old(self)@[i2].id);
                assert(self@[j].id == old(self)@[j].id);
            }
            assert forall|k: int| 0 <= k < self@.len() implies 1 <= (#[trigger] self@[k]).id
                < self.next_id by {
                assert(self@[k].id == old(self)@[k].id);
            }
        }
        Ok(())
    }
}

} // verus!
