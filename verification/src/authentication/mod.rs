//! The authentication service: password and refresh-token hashing, access
//! tokens, and the decisions of its request handlers.

pub mod auth;
pub mod errors;
pub mod models;
pub mod handlers;
pub mod middleware;
pub mod state;
