use vstd::prelude::*;

verus! {

/// Every way a safety rules operation can fail.
#[derive(Clone, Copy, Debug, PartialEq, Eq, Structural)]
pub enum Error {
    /// No epoch has been established yet.
    NotInitialized,
    /// The request names a different epoch than the current state: (requested, current).
    IncorrectEpoch(u64, u64),
    /// A round or commit-chain monotonicity rule would be broken.
    InvalidOrdering,
    /// The epoch change proof is empty, discontinuous or not signed by a quorum.
    InvalidEpochChangeProof,
    /// The proof does not match the trusted waypoint.
    WaypointMismatch,
    /// The request names an author other than this validator.
    NotAuthorized,
    /// A storage or transport failure.
    IoError,
    /// A message that crossed the execution boundary could not be decoded.
    SerializationError,
    /// An unexpected internal failure.
    InternalError,
}

impl Error {
    /// True of the two kinds that re-initialization can recover from.
    pub open spec fn is_recoverable(self) -> bool {
        self is NotInitialized || self is IncorrectEpoch
    }
}

} // verus!
