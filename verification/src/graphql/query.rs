//! Queries: what each decides.

use vstd::prelude::*;

use super::error::GraphqlError;
use crate::domain::user::User;

verus! {

/// The root of the queries.
pub struct QueryRoot;

/// The answer to asking for the authenticated user.
pub const CALLER_MISSING: &'static str = "Not implemented: auth context required";

impl QueryRoot {
    /// The authenticated user; the service has no authentication yet, so this
    /// always fails.
    pub fn me(&self) -> (result: Result<Option<User>, GraphqlError>)
        ensures
            result == Err::<Option<User>, GraphqlError>(GraphqlError::NotImplemented(CALLER_MISSING)),
    {
        Err(GraphqlError::NotImplemented(CALLER_MISSING))
    }
}

} // verus!
