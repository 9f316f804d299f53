//! The user object.

use vstd::prelude::*;

use crate::domain::user::User;
use crate::ids::{id_text, uuid_text};

verus! {

/// A user as returned by the API.
pub struct UserType(pub User);

impl From<User> for UserType {
    fn from(u: User) -> (t: Self)
        ensures
            t.0 == u,
    {
        UserType(u)
    }
}

impl vstd::std_specs::convert::FromSpecImpl<User> for UserType {
    open spec fn obeys_from_spec() -> bool {
        true
    }

    open spec fn from_spec(u: User) -> Self {
        UserType(u)
    }
}

impl UserType {
    /// The text of the user's identifier.
    pub fn id(&self) -> (text: String)
        ensures
            text@ == uuid_text(self.0.id),
    {
        id_text(self.0.id)
    }

    /// The user name.
    pub fn username(&self) -> (text: &str)
        ensures
            text@ == self.0.username@,
    {
        self.0.username.as_str()
    }

    /// When the user was created.
    pub fn created_at(&self) -> (value: i64)
        ensures
            value == self.0.created_at,
    {
        self.0.created_at
    }
}

} // verus!
