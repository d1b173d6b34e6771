//! Verified core of a small credential service.
//!
//! The library covers the credential-handling path: password hashing and
//! verification through bcrypt, a credential store keyed by username with a
//! uniqueness invariant, and the register/login handler logic with exact
//! response contracts.

pub mod errors;
pub mod hashing;
pub mod messages;
pub mod store;
pub mod handlers;
