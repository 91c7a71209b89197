//! The item service: a greeting and an in-memory list of items.

pub mod handlers;
pub mod models;
pub mod state;
