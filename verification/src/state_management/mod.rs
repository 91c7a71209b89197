//! The user CRUD service: what its handlers decide between database calls.

pub mod errors;
pub mod handlers;
