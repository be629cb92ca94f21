//! The failures that the access layer reports.

use automerge::AutomergeError;
use vstd::prelude::*;

verus! {

/// Why an access was refused, or what the engine reported.
#[derive(Debug)]
pub enum AccessError {
    /// The operation needs the document itself while a transaction holds it.
    ActiveTransaction,
    /// A lent document was used after its lender took it back.
    Invalidated,
    /// A mutation was attempted on an actor-managed document.
    ReadOnlyActor,
    /// A transaction operation was attempted with no transaction open.
    TransactionInactive,
    /// A transaction was begun while one is already open.
    AlreadyActive,
    /// The actor id of a lent document was to be changed; it belongs to the
    /// lender.
    LentActorChange,
    /// A callback tried to enter the same actor's document again.
    NestedChangeNotSupported,
    /// The engine refused the operation; its error is passed through as is.
    Engine(AutomergeError),
}

/// An engine result, with the engine's failure passed through as an access
/// error.
pub open spec fn from_engine<T>(r: Result<T, AutomergeError>) -> Result<T, AccessError> {
    match r {
        Ok(v) => Ok(v),
        Err(e) => Err(AccessError::Engine(e)),
    }
}

/// The engine's failure, passed through as an access error.
pub(crate) fn engine_err<T>(r: Result<T, AutomergeError>) -> (out: Result<T, AccessError>)
    ensures
        out == from_engine(r),
{
    match r {
        Ok(v) => Ok(v),
        Err(e) => Err(AccessError::Engine(e)),
    }
}

} // verus!
