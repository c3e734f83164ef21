//! Error taxonomy of the library.
//!
//! Validation failures are raised before any store access; a zero-row lookup
//! is translated into [`NotFoundError`] at the boundary of each find
//! operation; every other store failure surfaces as [`PersistenceError`].

use vstd::prelude::*;

verus! {

/// A lookup by key matched no row in the store.
#[derive(Debug)]
pub struct NotFoundError {
    /// Human-readable description of what was not found.
    pub message: String,
}

/// A name offered for an entity does not meet the validation rule.
#[derive(Debug)]
pub struct NameFormatError {
    /// Human-readable description of the rejection.
    pub message: String,
}

/// A store-level failure other than "no rows": a constraint violation, a
/// connectivity failure, a malformed statement.
#[derive(Debug)]
pub struct PersistenceError {
    /// The store's own description of the failure.
    pub message: String,
}

/// Failure of location creation: either the name was rejected before any
/// store access, or the store itself failed.
#[derive(Debug)]
pub enum CreateError {
    /// The name does not meet the validation rule; nothing was written.
    Validation(NameFormatError),
    /// The store reported a failure.
    Persistence(PersistenceError),
}

} // verus!
