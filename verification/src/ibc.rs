//! The application-facing storage facade: read-only header and tip lookups
//! over a shared state service handle, and the traits through which an
//! application context launches the node.

use vstd::prelude::*;

use crate::error::ChainError;
use crate::header::{BlockHeader, BlockHeaderHash, BlockHeight};
use crate::state::{QueryType, RequestBlockHeader, Response, Service};

verus! {

/// An application-level wrapper holding a state service handle.
#[derive(Clone, Copy)]
pub struct IBCStorage<S> {
    /// The wrapped state service handle.
    pub state: S,
}

/// A lookup key for the storage facade, generic over the key types.
#[derive(Clone, Copy)]
pub enum IBCQuery<Hash, Height> {
    /// Look the header up by its identity hash.
    ByHash(Hash),
    /// Look the header up by its chain position.
    ByHeight(Height),
}

impl From<BlockHeaderHash> for IBCQuery<BlockHeaderHash, BlockHeight> {
    fn from(hash: BlockHeaderHash) -> (r: Self) {
        IBCQuery::ByHash(hash)
    }
}

impl vstd::std_specs::convert::FromSpecImpl<BlockHeaderHash> for IBCQuery<BlockHeaderHash, BlockHeight> {
    open spec fn obeys_from_spec() -> bool {
        true
    }

    open spec fn from_spec(hash: BlockHeaderHash) -> Self {
        IBCQuery::ByHash(hash)
    }
}

impl From<BlockHeight> for IBCQuery<BlockHeaderHash, BlockHeight> {
    fn from(height: BlockHeight) -> (r: Self) {
        IBCQuery::ByHeight(height)
    }
}

impl vstd::std_specs::convert::FromSpecImpl<BlockHeight> for IBCQuery<BlockHeaderHash, BlockHeight> {
    open spec fn obeys_from_spec() -> bool {
        true
    }

    open spec fn from_spec(height: BlockHeight) -> Self {
        IBCQuery::ByHeight(height)
    }
}

/// The read-only request surface offered to application code.
pub trait IBCRequest<Hash, Height> {
    /// The response of a header lookup.
    type HeaderHeightResponse;

    /// The response of a tip lookup.
    type HashHeightResponse;

    /// Looks a header and its height up by hash or height.
    fn get(&self, query: IBCQuery<Hash, Height>) -> Self::HeaderHeightResponse;

    /// Reports the hash and height at the tip of the current chain.
    fn get_tip(&self) -> Self::HashHeightResponse;
}

/// Translates a facade query into the state protocol's query, kind for kind.
pub fn to_query_type(query: IBCQuery<BlockHeaderHash, BlockHeight>) -> (r: QueryType)
    ensures
        r == match query {
            IBCQuery::ByHash(hash) => QueryType::ByHash(hash),
            IBCQuery::ByHeight(height) => QueryType::ByHeight(height),
        },
{
    match query {
        IBCQuery::ByHash(hash) => QueryType::ByHash(hash),
        IBCQuery::ByHeight(height) => QueryType::ByHeight(height),
    }
}

/// Reads what a state service answered to a `GetBlockHeader` request: the
/// header and its height out of `BlockHeader`, any other response as an
/// error, and a service failure unchanged.
pub fn interpret_header_response(response: Result<Response, ChainError>) -> (r: Result<
    Option<(BlockHeader, BlockHeight)>,
    ChainError,
>)
    ensures
        match response {
            Ok(Response::BlockHeader { block_header, block_height }) => r == Ok::<
                Option<(BlockHeader, BlockHeight)>,
                ChainError,
            >(Some((block_header, block_height))),
            Ok(_) => r == Err::<Option<(BlockHeader, BlockHeight)>, ChainError>(
                ChainError::UnexpectedResponse,
            ),
            Err(e) => r == Err::<Option<(BlockHeader, BlockHeight)>, ChainError>(e),
        },
{
    match response {
        Ok(Response::BlockHeader { block_header, block_height }) => Ok(
            Some((block_header, block_height)),
        ),
        Ok(_) => Err(ChainError::UnexpectedResponse),
        Err(e) => Err(e),
    }
}

/// Reads what a state service answered to a `GetTip` request: the hash and
/// height out of `Tip`, any other response as an error, and a service
/// failure unchanged.
pub fn interpret_tip_response(response: Result<Response, ChainError>) -> (r: Result<
    Option<(BlockHeaderHash, BlockHeight)>,
    ChainError,
>)
    ensures
        match response {
            Ok(Response::Tip { hash, height }) => r == Ok::<
                Option<(BlockHeaderHash, BlockHeight)>,
                ChainError,
            >(Some((hash, height))),
            Ok(_) => r == Err::<Option<(BlockHeaderHash, BlockHeight)>, ChainError>(
                ChainError::UnexpectedResponse,
            ),
            Err(e) => r == Err::<Option<(BlockHeaderHash, BlockHeight)>, ChainError>(e),
        },
{
    match response {
        Ok(Response::Tip { hash, height }) => Ok(Some((hash, height))),
        Ok(_) => Err(ChainError::UnexpectedResponse),
        Err(e) => Err(e),
    }
}

/// A storage facade over a cloneable state service handle: each lookup works
/// on its own clone of the handle, as concurrent callers would.
pub struct Storage<S> {
    state: S,
}

impl<S: Service<RequestBlockHeader> + Clone> Storage<S> {
    /// The wrapped state service handle.
    pub closed spec fn spec_state(&self) -> S {
        self.state
    }

    /// Wraps a state service handle; no request is issued.
    pub fn new(state: S) -> (r: Storage<S>)
        ensures
            r.spec_state() == state,
    {
        Storage { state }
    }
}

impl<S: Service<RequestBlockHeader> + Clone> IBCRequest<BlockHeaderHash, BlockHeight> for Storage<
    S,
> {
    type HeaderHeightResponse = Result<Option<(BlockHeader, BlockHeight)>, ChainError>;

    type HashHeightResponse = Result<Option<(BlockHeaderHash, BlockHeight)>, ChainError>;

    /// Issues one `GetBlockHeader` with the query translated kind for kind
    /// ([`to_query_type`]) and interprets whatever the service answered
    /// ([`interpret_header_response`]).
    fn get(&self, query: IBCQuery<BlockHeaderHash, BlockHeight>) -> Result<
        Option<(BlockHeader, BlockHeight)>,
        ChainError,
    > {
        let mut state = self.state.clone();
        let query = to_query_type(query);
        state.ready()?;
        interpret_header_response(state.call(RequestBlockHeader::GetBlockHeader { query }))
    }

    /// Issues one `GetTip` and interprets whatever the service answered
    /// ([`interpret_tip_response`]).
    fn get_tip(&self) -> Result<Option<(BlockHeaderHash, BlockHeight)>, ChainError> {
        let mut state = self.state.clone();
        state.ready()?;
        interpret_tip_response(state.call(RequestBlockHeader::GetTip))
    }
}

/// Command-line context for launching the node application.
#[derive(Clone, Debug)]
pub struct Config {
    /// The command line handed to the application when none is supplied.
    pub cli_opts: String,
}

impl Default for Config {
    fn default() -> (r: Config)
        ensures
            r.cli_opts@ == "-c ./zebrad.toml start-headers-only --cache-dir ./.zebra-state"@,
    {
        Config {
            cli_opts: "-c ./zebrad.toml start-headers-only --cache-dir ./.zebra-state".to_owned(),
        }
    }
}

/// Implemented by application contexts that run the node with an optional
/// command-line override; runners live outside the library.
pub trait IBCRunnable {
    /// Runs with the given command line, or the context's default.
    fn run(&self, run_cli: Option<&str>);
}

/// Implemented by application entry points that consume themselves to run.
pub trait Runnable {
    /// Run this `Runnable`.
    fn run(self);
}

} // verus!
