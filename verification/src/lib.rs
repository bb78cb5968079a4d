//! A user-identity domain-and-persistence library.
//!
//! The crate models a small backend core: identity records (`User`) with a
//! one-to-one public profile (`UserProfile`), a repository port describing
//! every persistence operation, an in-memory adapter implementing that port,
//! and a service layer that orchestrates partial profile updates.  Each
//! operation's behaviour is pinned by a contract over a mathematical model of
//! the stored state.

pub mod errors;
pub mod laws;
pub mod memory;
pub mod models;
pub mod ports;
pub mod service;
pub mod store;
