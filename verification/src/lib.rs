//! A minimal account service: account creation (signup) and credential-based
//! login, backed by a remote document store. The store and transport calls
//! themselves are performed by the surrounding application; this crate holds
//! the verified logic: the account record, the repository's query shape and
//! result policy, and the service's mapping of outcomes to responses and
//! statuses.

pub mod calc;
pub mod user;
pub mod user_repository;
pub mod user_service;
