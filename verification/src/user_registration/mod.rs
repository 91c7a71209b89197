//! The registration service: validated sign-ups kept in memory.

pub mod errors;
pub mod models;
pub mod responses;
pub mod state;
