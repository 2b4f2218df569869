//! The request/response protocol of the header index services, and the state
//! service configuration.
//!
//! Every request returns exactly one response or exactly one error; callers
//! treat "not found" and "operation failed" as distinct outcomes.

use vstd::prelude::*;

use crate::error::ChainError;
use crate::header::{BlockHeader, BlockHeaderHash, BlockHeight};

verus! {

/// Configuration for the state service.
#[derive(Clone, Debug)]
pub struct Config {
    /// The root directory for storing cached data into the state storage.
    pub cache_dir: String,
    /// The maximum number of bytes to use caching data in memory.
    pub memory_cache_bytes: u64,
    /// Whether to use an ephemeral database, stored in memory or in a
    /// temporary directory, instead of `cache_dir`.
    pub ephemeral: bool,
}

impl Default for Config {
    fn default() -> (r: Config)
        ensures
            r.cache_dir@ == "./.zebra-state"@,
            r.memory_cache_bytes == 1024u64 * 1024 * 1024,
            !r.ephemeral,
    {
        Config {
            cache_dir: "./.zebra-state".to_owned(),
            memory_cache_bytes: 1024 * 1024 * 1024,
            ephemeral: false,
        }
    }
}

/// The key of a header lookup: by hash or by height.
#[derive(Clone, Copy, Debug, PartialEq, Eq)]
pub enum QueryType {
    /// Look the header up under its identity hash.
    ByHash(BlockHeaderHash),
    /// Look the header up under its chain position.
    ByHeight(BlockHeight),
}

impl From<BlockHeaderHash> for QueryType {
    fn from(hash: BlockHeaderHash) -> (r: Self) {
        QueryType::ByHash(hash)
    }
}

impl vstd::std_specs::convert::FromSpecImpl<BlockHeaderHash> for QueryType {
    open spec fn obeys_from_spec() -> bool {
        true
    }

    open spec fn from_spec(hash: BlockHeaderHash) -> Self {
        QueryType::ByHash(hash)
    }
}

impl From<BlockHeight> for QueryType {
    fn from(height: BlockHeight) -> (r: Self) {
        QueryType::ByHeight(height)
    }
}

impl vstd::std_specs::convert::FromSpecImpl<BlockHeight> for QueryType {
    open spec fn obeys_from_spec() -> bool {
        true
    }

    open spec fn from_spec(height: BlockHeight) -> Self {
        QueryType::ByHeight(height)
    }
}

/// A state request, used to manipulate the header index.
#[derive(Clone, Copy, Debug, PartialEq, Eq)]
pub enum RequestBlockHeader {
    /// Add a block header at the given height to the index.
    AddBlockHeader {
        /// The block header to be added to the state.
        block_header: BlockHeader,
        /// The chain position the header occupies.
        block_height: BlockHeight,
    },
    /// Get a block header by hash or by height.
    GetBlockHeader {
        /// The hash or height used to identify the block header.
        query: QueryType,
    },
    /// Get the chain position of a header by its hash.
    GetBlockHeight {
        /// The hash used to identify the block header.
        hash: BlockHeaderHash,
    },
    /// Get the header at the tip of the current chain.
    GetTip,
    /// Ask how far below the current tip the given hash sits.
    GetDepth {
        /// The hash to check against the current chain.
        hash: BlockHeaderHash,
    },
}

/// A state response.
#[derive(Clone, Copy, Debug, PartialEq, Eq)]
pub enum Response {
    /// A header was added to the index.
    Added {
        /// The identity hash of the header that was added.
        hash: BlockHeaderHash,
        /// The height of the header that was added.
        height: BlockHeight,
    },
    /// The header found for a `GetBlockHeader` request.
    BlockHeader {
        /// The block header that was requested.
        block_header: BlockHeader,
        /// The chain position of that header.
        block_height: BlockHeight,
    },
    /// The height found for a `GetBlockHeight` request.
    BlockHeight {
        /// The chain position of the requested header.
        block_height: BlockHeight,
    },
    /// The header at the tip of the current chain.
    Tip {
        /// The identity hash of the tip header.
        hash: BlockHeaderHash,
        /// The height of the tip header.
        height: BlockHeight,
    },
    /// The number of blocks above the given block, or `None` when the hash is
    /// not indexed.
    Depth(Option<u32>),
}

/// A request/response service, one call at a time: a readiness check, then a
/// call. Implementations are free to refuse readiness; the worker treats a
/// readiness failure as terminal.
pub trait Service<Request> {
    /// Reports whether the service can take one more call.
    fn ready(&mut self) -> Result<(), ChainError>;

    /// Handles one request.
    fn call(&mut self, req: Request) -> Result<Response, ChainError>;
}

} // verus!
