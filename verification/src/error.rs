//! The technical failures a storage backend can report.

use vstd::prelude::*;

verus! {

/// A technical failure of the storage backend. Expected outcomes, such as an
/// email that is already taken or not known, are not errors of this kind.
#[derive(Clone, Copy, Debug, PartialEq, Eq, Structural)]
pub enum DbError {
    /// The database could not be reached.
    ConnectionFailure,
    /// A statement was sent and its execution failed.
    QueryFailure,
}

} // verus!
