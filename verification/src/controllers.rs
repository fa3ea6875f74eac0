//! What the handlers answer.

pub mod auth;
