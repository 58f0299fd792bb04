//! The error taxonomy: what the engine reports, and the distinct admission
//! and transport failures of the actor layer itself.

use vstd::prelude::*;

verus! {

/// An error reported by the engine itself (the storage/search core behind the
/// actor layer).  The layer passes these through unchanged, never reinterprets
/// them.  Each variant carries the offending name or a short description.
#[derive(Clone, Debug, PartialEq, Eq)]
pub enum EngineError {
    /// The named collection (or alias) does not exist.
    NotFound(String),
    /// The request itself was malformed or inconsistent.
    BadInput(String),
    /// The request was well formed but cannot be satisfied.
    BadRequest(String),
    /// An internal engine failure.
    ServiceError(String),
}

/// The single error type callers of the client see.  The categories are kept
/// apart so a caller can decide what is safe to retry:
/// - `ChannelClosed`: admission was refused because shutdown has begun; the
///   operation was never accepted and did not happen.
/// - `ResponseLost`: the reply slot was dropped before it was fulfilled; the
///   outcome of the operation is unknown and a write must not be blindly
///   retried.
/// - `Storage`: the engine reported an error; it is carried unchanged.
#[derive(Clone, Debug, PartialEq, Eq)]
pub enum QdrantError {
    ChannelClosed,
    ResponseLost,
    Storage(EngineError),
}

/// Projects a client-level result onto the engine-level result it carries.
/// Meaningful only where the admission and transport error variants are ruled
/// out by other clauses; those map to an unconstrained value.
pub open spec fn engine_result_of<T>(r: Result<T, QdrantError>) -> Result<T, EngineError> {
    match r {
        Ok(v) => Ok(v),
        Err(QdrantError::Storage(e)) => Err(e),
        Err(_) => vstd::pervasive::arbitrary(),
    }
}

} // verus!
