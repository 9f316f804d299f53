//! Users.

use vstd::prelude::*;

use super::types::Timestamp;

verus! {

/// The identifier of a user (the 128-bit value of its UUID).
pub type UserId = u128;

/// A registered user.
#[derive(Debug, Clone)]
pub struct User {
    pub id: UserId,
    pub username: String,
    pub created_at: Timestamp,
}

} // verus!
