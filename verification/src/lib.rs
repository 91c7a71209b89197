//! Request logic of four small web services: an authentication service, an
//! item list, a user-registration service with field validation, and a
//! user CRUD service. The HTTP, database and process plumbing lives in the
//! companion binary; this crate holds the decisions, with their contracts.

pub mod text;
pub mod authentication;
pub mod hello_axum;
pub mod user_registration;
pub mod state_management;
