//! The request logic of the GraphQL API: what each query and mutation
//! decides, and what each field of the returned objects reads. Serving the
//! schema, and the storage calls between the decisions, are left to the caller.

pub mod error;
pub mod loaders;
pub mod mutation;
pub mod query;
pub mod types;
