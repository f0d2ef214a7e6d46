//! Account service core: credential hashing, signed bearer tokens, the
//! request-time authentication check, the transactional unit of work run on a
//! leased connection, and the four account operations built on them.
//!
//! Everything here computes on plain values. Leasing connections, talking to
//! the store and writing responses to the wire belong to the host program,
//! which performs what the library asks for and hands back what happened.

pub mod commons;
pub mod state;
pub mod user;
pub mod store;
