//! Domain model and verified request logic of a group expense-splitting service.
//!
//! Identifiers are UUIDs held as their 128-bit big-endian value; the text form
//! and parsing go through the `uuid` crate.

pub mod ids;
pub mod db;
pub mod domain;
pub mod repository;
pub mod graphql;
