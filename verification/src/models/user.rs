//! A user identity with its credential hash.

use vstd::prelude::*;

verus! {

/// The mathematical content of a stored user record.
pub ghost struct UserView {
    pub id: int,
    pub email: Seq<char>,
    pub password: Seq<char>,
    pub updated_at: int,
    pub created_at: int,
}

/// A user record: a store-assigned id, a unique email (matched exactly, with
/// no normalization), the adaptive password hash, and two timestamps in
/// microseconds since the Unix epoch. The hash is opaque and is never sent
/// to a client.
#[derive(Debug)]
pub struct User {
    pub id: i64,
    pub email: String,
    pub password: String,
    pub updated_at: i64,
    pub created_at: i64,
}

impl View for User {
    type V = UserView;

    open spec fn view(&self) -> UserView {
        UserView {
            id: self.id as int,
            email: self.email@,
            password: self.password@,
            updated_at: self.updated_at as int,
            created_at: self.created_at as int,
        }
    }
}

impl DeepView for User {
    type V = UserView;

    open spec fn deep_view(&self) -> UserView {
        self.view()
    }
}

impl Clone for User {
    fn clone(&self) -> (r: Self)
        ensures
            r == *self,
    {
        User {
            id: self.id,
            email: self.email.clone(),
            password: self.password.clone(),
            updated_at: self.updated_at,
            created_at: self.created_at,
        }
    }
}

} // verus!
