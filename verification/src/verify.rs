//! Header verification: the checkpoint between a header received from the
//! network and a header admitted into the index.
//!
//! Checks run cheap-to-expensive: the clock-skew bound first, the Equihash
//! solution second, and only then is one `AddBlockHeader` call issued to the
//! index service. Verification success does not guarantee commit success; an
//! index failure is propagated unchanged.

use vstd::prelude::*;

use crate::error::ChainError;
use crate::header::{solution_valid, BlockHeader, BlockHeaderHash, BlockHeight};
use crate::state::{RequestBlockHeader, Response, Service};

verus! {

/// The tolerated clock skew: header timestamps up to this many seconds in the
/// future are accepted.
pub const TIME_TOLERANCE_SECONDS: i64 = 7200;

/// The outcome of the clock check: accepted when the header time is at most
/// two hours past `now` (equality at the boundary is accepted); rejected with
/// `FutureTimestamp` beyond that; `TimeOverflow` when the bound itself cannot
/// be computed.
pub open spec fn spec_node_time_check(block_header_time: i64, now: i64) -> Result<
    (),
    ChainError,
> {
    if now + TIME_TOLERANCE_SECONDS > i64::MAX {
        Err(ChainError::TimeOverflow)
    } else if block_header_time <= now + TIME_TOLERANCE_SECONDS {
        Ok(())
    } else {
        Err(ChainError::FutureTimestamp)
    }
}

/// Checks that `block_header_time` is at most two hours in the future of the
/// node's local clock `now`, both in unix seconds.
///
/// This encodes a non-deterministic consensus rule: clocks vary over time and
/// between nodes, so a header rejected now may be accepted later.
pub fn node_time_check(block_header_time: i64, now: i64) -> (r: Result<(), ChainError>)
    ensures
        r == spec_node_time_check(block_header_time, now),
{
    match now.checked_add(TIME_TOLERANCE_SECONDS) {
        None => Err(ChainError::TimeOverflow),
        Some(limit) => {
            if block_header_time <= limit {
                Ok(())
            } else {
                Err(ChainError::FutureTimestamp)
            }
        },
    }
}

/// The ordered consensus checks on one header: the clock check first, the
/// proof-of-work solution check second.
pub open spec fn spec_check_header(h: crate::header::HeaderView, now: i64) -> Result<
    (),
    ChainError,
> {
    if spec_node_time_check(h.time as i64, now) is Err {
        spec_node_time_check(h.time as i64, now)
    } else if !solution_valid(h) {
        Err(ChainError::InvalidProofOfWork)
    } else {
        Ok(())
    }
}

/// The cheap clock check short-circuits the expensive solution check: a
/// header with a too-far-future timestamp is rejected with `FutureTimestamp`,
/// whether or not its proof-of-work solution is also invalid.
pub proof fn lemma_cheap_check_first(h: crate::header::HeaderView, now: i64)
    requires
        spec_node_time_check(h.time as i64, now) == Err::<(), ChainError>(
            ChainError::FutureTimestamp,
        ),
    ensures
        spec_check_header(h, now) == Err::<(), ChainError>(ChainError::FutureTimestamp),
{
}

/// Runs the consensus checks on a header against the clock reading `now`.
pub fn check_header(header: &BlockHeader, now: i64) -> (r: Result<(), ChainError>)
    ensures
        r == spec_check_header(header@, now),
{
    node_time_check(header.time as i64, now)?;
    header.is_equihash_solution_valid()?;
    Ok(())
}

/// Reads what a state service answered to an `AddBlockHeader` request: the
/// identifying pair out of `Added`, any other response as an error, and a
/// service failure unchanged.
pub fn interpret_add_response(response: Result<Response, ChainError>) -> (r: Result<
    (BlockHeaderHash, BlockHeight),
    ChainError,
>)
    ensures
        match response {
            Ok(Response::Added { hash, height }) => r == Ok::<
                (BlockHeaderHash, BlockHeight),
                ChainError,
            >((hash, height)),
            Ok(_) => r == Err::<(BlockHeaderHash, BlockHeight), ChainError>(
                ChainError::UnexpectedResponse,
            ),
            Err(e) => r == Err::<(BlockHeaderHash, BlockHeight), ChainError>(e),
        },
{
    match response {
        Ok(Response::Added { hash, height }) => Ok((hash, height)),
        Ok(_) => Err(ChainError::UnexpectedResponse),
        Err(e) => Err(e),
    }
}

/// Relies on chrono::Utc::now for the node's wall clock, read as unix
/// seconds. Nothing is assumed of the value: every caller handles every
/// reading.
#[verifier::external_body]
fn utc_now_seconds() -> i64 {
    chrono::Utc::now().timestamp()
}

/// A verification service in front of a state service: each call runs the
/// consensus checks and, on success, issues exactly one `AddBlockHeader`
/// call.
pub struct BlockHeaderVerifier<S> {
    /// The underlying state service to which verified headers are committed.
    state_service: S,
}

impl<S: Service<RequestBlockHeader>> BlockHeaderVerifier<S> {
    /// Builds a verifier committing to the given state service.
    pub fn new(state_service: S) -> BlockHeaderVerifier<S> {
        BlockHeaderVerifier { state_service }
    }

    /// The verifier never exerts backpressure of its own; all backpressure
    /// comes transitively from the index service.
    pub fn poll_ready(&mut self) -> (r: Result<(), ChainError>)
        ensures
            r is Ok,
            *final(self) == *old(self),
    {
        Ok(())
    }

    /// Verifies one `(header, height)` pair and, if both checks pass,
    /// commits it to the state service, returning the committed pair.
    ///
    /// An invalid proof of work can only surface as an error; a returned
    /// pair proves the solution was valid. Which error comes first follows
    /// the cheap-before-expensive order of [`spec_check_header`].
    pub fn call(&mut self, header: BlockHeader, block_height: BlockHeight) -> (r: Result<
        (BlockHeaderHash, BlockHeight),
        ChainError,
    >)
        ensures
            r is Ok ==> solution_valid(header@),
            !solution_valid(header@) ==> r == Err::<(BlockHeaderHash, BlockHeight), ChainError>(
                ChainError::FutureTimestamp,
            ) || r == Err::<(BlockHeaderHash, BlockHeight), ChainError>(ChainError::TimeOverflow)
                || r == Err::<(BlockHeaderHash, BlockHeight), ChainError>(
                ChainError::InvalidProofOfWork,
            ),
    {
        let now = utc_now_seconds();
        check_header(&header, now)?;
        self.state_service.ready()?;
        let response = self.state_service.call(
            RequestBlockHeader::AddBlockHeader { block_header: header, block_height },
        );
        interpret_add_response(response)
    }
}

} // verus!
