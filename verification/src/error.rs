//! The failure taxonomy shared by the index services and the header verifier.

use vstd::prelude::*;

verus! {

/// Every index or verifier operation returns either a success value or one of
/// these failures. "Not found" is reported as `NotFound` (or as an empty
/// result, for depth queries) and is always distinguished from hard errors.
#[derive(Clone, Copy, Debug, PartialEq, Eq, Structural)]
pub enum ChainError {
    /// A header with the same hash is already indexed; the insert was rejected.
    DuplicateHash,
    /// A header already occupies that height; the insert was rejected.
    DuplicateHeight,
    /// The requested key is absent from the index.
    NotFound,
    /// Stored bytes failed to decode as a header record.
    CorruptRecord,
    /// The durable backing store reported a failure.
    StoreFailure,
    /// The worker's mailbox is closed; no failure was captured before closing.
    Closed,
    /// A service answered a request with a response of the wrong kind.
    UnexpectedResponse,
    /// The header's timestamp is more than the tolerated skew in the future.
    FutureTimestamp,
    /// Adding the tolerated skew to the current time would overflow.
    TimeOverflow,
    /// The header's Equihash solution does not match its difficulty and nonce.
    InvalidProofOfWork,
}

} // verus!
