//! Pieces shared by every operation: response shapes and authentication.

pub mod auth;
pub mod clock;
pub mod jwt;
pub mod schema;
