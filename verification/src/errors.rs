//! Error taxonomy of the credential service.

use vstd::prelude::*;

verus! {

/// The hashing primitive could not produce a digest.
#[derive(Clone, Copy, Debug, PartialEq, Eq, Structural)]
pub struct HashingError;

/// A stored digest is not a well-formed bcrypt hash, so it cannot be checked
/// against a password.
#[derive(Clone, Copy, Debug, PartialEq, Eq, Structural)]
pub struct VerificationError;

/// The username to insert is already present in the store.
#[derive(Clone, Copy, Debug, PartialEq, Eq, Structural)]
pub struct DuplicateError;

/// The username to look up has no record in the store.
#[derive(Clone, Copy, Debug, PartialEq, Eq, Structural)]
pub struct NotFoundError;

/// Outcome of an insert statement against a store backend, as reported by the
/// caller that performed it.
#[derive(Clone, Copy, Debug, PartialEq, Eq, Structural)]
pub enum InsertOutcome {
    /// The record was written.
    Inserted,
    /// The backend refused the write because the username already exists.
    Duplicate,
    /// The backend failed (connectivity or query failure).
    StoreError,
}

/// Outcome of a password-hash lookup against a store backend, as reported by
/// the caller that performed it.
#[derive(Debug)]
pub enum LookupOutcome {
    /// The stored digest for the username.
    Found(String),
    /// No record exists for the username.
    NotFound,
    /// The backend failed (connectivity or query failure).
    StoreError,
}

} // verus!
