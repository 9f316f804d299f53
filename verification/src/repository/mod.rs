//! The storage layer's own logic: which SQL statements each repository
//! operation issues, with which bound values, and how stored rows become
//! entities. Running the statements is left to the caller.

pub mod group_repo;
pub mod statement;
pub mod user_repo;
