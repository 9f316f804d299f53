//! Shared value types and the error of the storage layer.

use vstd::prelude::*;

verus! {

/// Seconds since the Unix epoch.
pub type Timestamp = i64;

/// An ISO 4217 currency code such as `USD`.
pub type CurrencyCode = String;

/// What a stored row can fail on when it is turned into an entity.
#[derive(Debug, Clone)]
pub enum RepoError {
    /// A group member row holds a role other than `admin` or `member`.
    UnknownGroupRole(String),
}

/// The text of an unknown-role error.
pub open spec fn unknown_role_message(role: Seq<char>) -> Seq<char> {
    "unknown group role: "@ + role
}

impl RepoError {
    /// The error's message.
    pub fn message(&self) -> (text: String)
        ensures
            match self {
                RepoError::UnknownGroupRole(role) => text@ == unknown_role_message(role@),
            },
    {
        match self {
            RepoError::UnknownGroupRole(role) => {
                let mut text = String::from_str("unknown group role: ");
                text.append(role.as_str());
                text
            },
        }
    }
}

/// The result of a storage operation.
pub type RepoResult<T> = Result<T, RepoError>;

} // verus!
