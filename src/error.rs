//! The failures that the store reports.
use vstd::prelude::*;

verus! {

/// Why an operation on the store or its schema failed.
#[derive(Debug, Clone, Copy, PartialEq, Eq, Structural)]
pub enum StoreError {
    /// A missing identifier, or a reference to a row that does not exist.
    NotFound,
    /// The row is referenced by other rows, or its identifier is taken.
    Conflict,
    /// Malformed input: an empty required field, a negative identifier or
    /// timestamps out of order.
    ValidationError,
    /// The store cannot do what was asked: identifiers or timestamps are
    /// exhausted, or a schema version is unknown.
    StorageError,
}

} // verus!
