//! Accounts: stored rows, wire shapes and the operations on them.

pub mod models;
pub mod schemas;
pub mod services;
