//! The objects that queries and mutations return, and what their fields read.

pub mod balance;
pub mod category;
pub mod currency;
pub mod expense;
pub mod group;
pub mod invite;
pub mod payment;
pub mod text;
pub mod user;
