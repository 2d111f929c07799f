//! The ways an operation can fail.

use vstd::prelude::*;

verus! {

/// A failure that is reported as an error rather than as a validation
/// result.
#[derive(Clone, Debug, PartialEq)]
pub enum StorageError {
    /// No live row matches the identity.
    NotFound,
    /// The id is not the text of a UUID.
    MalformedIdentity,
    /// The payload or the definition has no field of this name.
    UnknownField(String),
    /// The named column of a row is missing or holds a value of the wrong
    /// kind.
    Conversion(String),
    /// A page number or page size below one.
    InvalidPage,
    /// The request carries no payload.
    NoData,
    /// The table has not two id columns: it holds no links.
    NoLinkTable,
    /// The store reported a failure: connectivity, a violated constraint, a
    /// failed transaction.
    Store,
}

impl StorageError {
    /// Everything but `NotFound` is an internal failure to a client.
    pub open spec fn is_internal(self) -> bool {
        !(self is NotFound)
    }
}

} // verus!
