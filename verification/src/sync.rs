//! The computable parts of the sync loop: how a batch of announced hashes is
//! turned into bounded network requests, and how command-line options
//! override the state configuration. The loop itself — network calls,
//! retries, the runtime — lives outside the library and hands plain values
//! in and out.

use vstd::prelude::*;

use crate::header::{BlockHeader, BlockHeaderHash};
use crate::state::Config;

verus! {

/// At most this many hashes go into one network request.
pub const MAX_HASHES_PER_REQUEST: usize = 10;

/// At most this many block requests are kept in flight by the sync loop.
pub const MAX_REQUESTS_IN_FLIGHT: usize = 500;

/// A response from the peer network, in internal format.
#[derive(Clone, Debug)]
pub enum Response {
    /// A response with no data.
    Nil,
    /// A list of headers.
    BlockHeaders(Vec<BlockHeader>),
    /// A list of header hashes.
    BlockHeaderHashes(Vec<BlockHeaderHash>),
}

/// The hashes carried by a run of chunks, in order.
pub open spec fn concat_of(chunks: Seq<Seq<BlockHeaderHash>>) -> Seq<BlockHeaderHash>
    decreases chunks.len(),
{
    if chunks.len() == 0 {
        Seq::empty()
    } else {
        concat_of(chunks.drop_last()) + chunks.last()
    }
}

/// Splits a batch of announced hashes into request-sized chunks: every chunk
/// but the last holds exactly `chunk_size` hashes, the last is non-empty and
/// at most that long, and in order the chunks carry exactly the input — so a
/// batch becomes the least possible number of bounded requests.
pub fn chunk_hashes(hashes: &Vec<BlockHeaderHash>, chunk_size: usize) -> (r: Vec<
    Vec<BlockHeaderHash>,
>)
    requires
        chunk_size >= 1,
    ensures
        concat_of(r@.map_values(|c: Vec<BlockHeaderHash>| c@)) == hashes@,
        forall|i: int| 0 <= i < r@.len() ==> 0 < #[trigger] r@[i]@.len() <= chunk_size,
        forall|i: int| 0 <= i < r@.len() - 1 ==> #[trigger] r@[i]@.len() == chunk_size,
{
    let mut out: Vec<Vec<BlockHeaderHash>> = Vec::new();
    let mut i: usize = 0;
    while i < hashes.len()
        invariant
            0 <= i <= hashes@.len(),
            chunk_size >= 1,
            concat_of(out@.map_values(|c: Vec<BlockHeaderHash>| c@)) == hashes@.subrange(
                0,
                i as int,
            ),
            forall|k: int| 0 <= k < out@.len() ==> 0 < #[trigger] out@[k]@.len() <= chunk_size,
            forall|k: int| 0 <= k < out@.len() - 1 ==> #[trigger] out@[k]@.len() == chunk_size,
            out@.len() > 0 ==> (out@.last()@.len() == chunk_size || i == hashes@.len()),
        decreases hashes@.len() - i,
    {
        let remaining = hashes.len() - i;
        let take = if remaining < chunk_size {
            remaining
        } else {
            chunk_size
        };
        let end = i + take;
        let mut chunk: Vec<BlockHeaderHash> = Vec::new();
        let mut j = i;
        while j < end
            invariant
                i <= j <= end <= hashes@.len(),
                chunk@ == hashes@.subrange(i as int, j as int),
            decreases end - j,
        {
            chunk.push(hashes[j]);
            proof {
                assert(hashes@.subrange(i as int, j as int).push(hashes@[j as int]) =~= hashes@
                    .subrange(i as int, j + 1));
            }
            j += 1;
        }
        let ghost prev = out@.map_values(|c: Vec<BlockHeaderHash>| c@);
        out.push(chunk);
        proof {
            assert(out@.map_values(|c: Vec<BlockHeaderHash>| c@) =~= prev.push(chunk@));
            assert(prev.push(chunk@).drop_last() =~= prev);
            assert(concat_of(prev.push(chunk@)) == concat_of(prev) + chunk@);
            assert(hashes@.subrange(0, i as int) + hashes@.subrange(i as int, end as int) =~= hashes@
                .subrange(0, end as int));
        }
        i = end;
    }
    proof {
        assert(hashes@.subrange(0, hashes@.len() as int) =~= hashes@);
    }
    out
}

/// The hash that becomes the sync loop's new tip after a batch of announced
/// hashes: the last one announced, or `None` when the batch is empty.
pub fn latest_hash(hashes: &Vec<BlockHeaderHash>) -> (r: Option<BlockHeaderHash>)
    ensures
        r is None <==> hashes@.len() == 0,
        r matches Some(h) ==> h == hashes@.last(),
{
    if hashes.len() == 0 {
        None
    } else {
        Some(hashes[hashes.len() - 1])
    }
}

/// `start` subcommand: the options for starting the node.
#[derive(Clone, Debug)]
pub struct StartCmd {
    /// The filter strings used for tracing events.
    pub filters: Vec<String>,
    /// Overrides the root directory for cached state, when given.
    pub cache_dir: Option<String>,
    /// Overrides the in-memory cache budget, when given.
    pub memory_cache_bytes: Option<u64>,
    /// Whether to use an ephemeral database, stored in memory.
    pub ephemeral: bool,
}

impl StartCmd {
    /// Applies the command-line overrides to a loaded state configuration:
    /// every option that was given replaces the configured value, and
    /// everything else is kept.
    pub fn override_config(&self, config: Config) -> (r: Config)
        ensures
            r.cache_dir@ == match self.cache_dir {
                Some(dir) => dir@,
                None => config.cache_dir@,
            },
            r.memory_cache_bytes == match self.memory_cache_bytes {
                Some(m) => m,
                None => config.memory_cache_bytes,
            },
            r.ephemeral == (config.ephemeral || self.ephemeral),
    {
        let mut config = config;
        if let Some(dir) = &self.cache_dir {
            config.cache_dir = dir.clone();
        }
        if let Some(mem_size) = self.memory_cache_bytes {
            config.memory_cache_bytes = mem_size;
        }
        if self.ephemeral {
            config.ephemeral = self.ephemeral;
        }
        config
    }
}

} // verus!
