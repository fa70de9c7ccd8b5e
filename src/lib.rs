use vstd::prelude::*;

pub mod cache;
pub mod tickets;
pub mod token;
pub mod snowflake;
pub mod hub;
pub mod models;
pub mod auth;

verus! {

/// Identity of a user: a snowflake identifier.
pub type UserID = i64;

} // verus!
