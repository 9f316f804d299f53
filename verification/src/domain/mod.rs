//! Entities of the service: users, groups, expenses, payments, invites,
//! balances, categories, currencies and the activity log.

pub mod activity;
pub mod balance;
pub mod category;
pub mod currency;
pub mod expense;
pub mod group;
pub mod invite;
pub mod payment;
pub mod types;
pub mod user;
