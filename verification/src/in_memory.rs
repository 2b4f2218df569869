//! The in-memory header index service: the request/response surface of the
//! durable service, backed entirely by [`BlockIndex`].

use vstd::prelude::*;

use crate::block_index::{
    find_by_hash, find_by_height, lemma_find_by_hash, lemma_find_by_hash_unique,
    lemma_find_by_height, lemma_tip_is_max, spec_insert, tip_of, BlockIndex, EntryView,
};
use crate::error::ChainError;
use crate::header::BlockHeaderHash;
use crate::state::{QueryType, RequestBlockHeader, Response, Service};

verus! {

/// A header index service with no persistence, used for testing and as the
/// reference implementation of the durable service's semantics.
pub struct InMemoryState {
    index: BlockIndex,
}

impl View for InMemoryState {
    type V = Seq<EntryView>;

    closed spec fn view(&self) -> Seq<EntryView> {
        self.index@
    }
}

impl InMemoryState {
    #[verifier::type_invariant]
    spec fn wf(&self) -> bool {
        self.index.inv()
    }

    /// Creates an empty in-memory index service.
    pub fn new() -> (r: InMemoryState)
        ensures
            r@ == Seq::<EntryView>::empty(),
    {
        InMemoryState { index: BlockIndex::new() }
    }

    /// The service is always ready: it exerts no backpressure of its own.
    pub fn poll_ready(&mut self) -> (r: Result<(), ChainError>)
        ensures
            r is Ok,
            final(self)@ == old(self)@,
    {
        Ok(())
    }

    /// Handles one request against the in-memory index: inserts go through
    /// the duplicate checks, lookups never mutate, a missing key is reported
    /// as `NotFound` (or as `Depth(None)` for depth queries).
    pub fn call(&mut self, req: RequestBlockHeader) -> (r: Result<Response, ChainError>)
        ensures
            match req {
                RequestBlockHeader::AddBlockHeader { block_header, block_height } => match spec_insert(
                    old(self)@,
                    block_header@,
                    block_height.0,
                ) {
                    Ok(s2) => final(self)@ == s2 && (r matches Ok(
                        Response::Added { hash, height },
                    ) && hash@ == crate::header::hash_of_header(block_header@) && height
                        == block_height),
                    Err(e) => final(self)@ == old(self)@ && r == Err::<Response, ChainError>(e),
                },
                RequestBlockHeader::GetBlockHeader { query } => final(self)@ == old(self)@
                    && match query {
                    QueryType::ByHash(qh) => match find_by_hash(old(self)@, qh@) {
                        Some(e) => (r matches Ok(
                            Response::BlockHeader { block_header, block_height },
                        ) && block_header@ == e.header && block_height.0 == e.height),
                        None => r == Err::<Response, ChainError>(ChainError::NotFound),
                    },
                    QueryType::ByHeight(qn) => match find_by_height(old(self)@, qn.0) {
                        Some(e) => (r matches Ok(
                            Response::BlockHeader { block_header, block_height },
                        ) && block_header@ == e.header && block_height.0 == e.height),
                        None => r == Err::<Response, ChainError>(ChainError::NotFound),
                    },
                },
                RequestBlockHeader::GetBlockHeight { hash } => final(self)@ == old(self)@
                    && match find_by_hash(old(self)@, hash@) {
                    Some(e) => (r matches Ok(Response::BlockHeight { block_height })
                        && block_height.0 == e.height),
                    None => r == Err::<Response, ChainError>(ChainError::NotFound),
                },
                RequestBlockHeader::GetTip => final(self)@ == old(self)@ && match tip_of(
                    old(self)@,
                ) {
                    Some(t) => (r matches Ok(Response::Tip { hash, height }) && hash@ == t.hash
                        && height.0 == t.height),
                    None => r == Err::<Response, ChainError>(ChainError::NotFound),
                },
                RequestBlockHeader::GetDepth { hash } => final(self)@ == old(self)@ && match find_by_hash(
                    old(self)@,
                    hash@,
                ) {
                    Some(e) => (r matches Ok(Response::Depth(Some(d))) && d == tip_of(
                        old(self)@,
                    )->Some_0.height - e.height),
                    None => r == Ok::<Response, ChainError>(Response::Depth(None)),
                },
            },
    {
        proof {
            use_type_invariant(&*self);
        }
        match req {
            RequestBlockHeader::AddBlockHeader { block_header, block_height } => {
                // The index is moved out before the insert and back afterwards,
                // so the service's invariant holds at every suspension point.
                let mut index = BlockIndex::new();
                core::mem::swap(&mut index, &mut self.index);
                let result = index.insert(block_header, block_height);
                self.index = index;
                match result {
                    Ok((hash, height)) => Ok(Response::Added { hash, height }),
                    Err(e) => Err(e),
                }
            },
            RequestBlockHeader::GetBlockHeader { query } => {
                match self.index.get(query)? {
                    Some(block_header) => {
                        let hash: BlockHeaderHash = block_header.hash();
                        proof {
                            self.entry_of_query(query);
                        }
                        match self.index.get_height(hash)? {
                            Some(height) => Ok(
                                Response::BlockHeader {
                                    block_header,
                                    block_height: height,
                                },
                            ),
                            None => Err(ChainError::NotFound),
                        }
                    },
                    None => Err(ChainError::NotFound),
                }
            },
            RequestBlockHeader::GetBlockHeight { hash } => {
                match self.index.get_height(hash)? {
                    Some(block_height) => Ok(Response::BlockHeight { block_height }),
                    None => Err(ChainError::NotFound),
                }
            },
            RequestBlockHeader::GetTip => {
                match self.index.get_tip()? {
                    Some((_header, hash, height)) => Ok(Response::Tip { hash, height }),
                    None => Err(ChainError::NotFound),
                }
            },
            RequestBlockHeader::GetDepth { hash } => {
                if !self.index.contains(&hash)? {
                    proof {
                        lemma_find_by_hash(self@, hash@);
                    }
                    return Ok(Response::Depth(None));
                }
                proof {
                    lemma_find_by_hash(self@, hash@);
                    lemma_tip_is_max(self@);
                }
                let block_header_height = match self.index.get_height(hash)? {
                    Some(h) => h,
                    None => {
                        return Err(ChainError::NotFound);
                    },
                };
                let tip = match self.index.get_tip()? {
                    Some((_header, _hash, height)) => height,
                    None => {
                        return Err(ChainError::NotFound);
                    },
                };
                proof {
                    let e = find_by_hash(self@, hash@)->Some_0;
                    let i = choose|i: int| 0 <= i < self@.len() && self@[i] == e;
                    assert(self@[i].height <= tip_of(self@)->Some_0.height);
                }
                let depth = tip.0 - block_header_height.0;
                Ok(Response::Depth(Some(depth)))
            },
        }
    }

    /// The entry found for a query carries the height that a lookup of its
    /// own identity hash returns.
    proof fn entry_of_query(&self, query: QueryType)
        requires
            self.index.inv(),
        ensures
            match query {
                QueryType::ByHash(qh) => match find_by_hash(self@, qh@) {
                    Some(e) => find_by_hash(self@, crate::header::hash_of_header(e.header))
                        == Some(e),
                    None => true,
                },
                QueryType::ByHeight(qn) => match find_by_height(self@, qn.0) {
                    Some(e) => find_by_hash(self@, crate::header::hash_of_header(e.header))
                        == Some(e),
                    None => true,
                },
            },
    {
        match query {
            QueryType::ByHash(qh) => {
                lemma_find_by_hash(self@, qh@);
                match find_by_hash(self@, qh@) {
                    Some(e) => {
                        let i = choose|i: int| 0 <= i < self@.len() && self@[i] == e;
                        lemma_find_by_hash_unique(self@, i);
                    },
                    None => {},
                }
            },
            QueryType::ByHeight(qn) => {
                lemma_find_by_height(self@, qn.0);
                match find_by_height(self@, qn.0) {
                    Some(e) => {
                        let i = choose|i: int| 0 <= i < self@.len() && self@[i] == e;
                        lemma_find_by_hash_unique(self@, i);
                    },
                    None => {},
                }
            },
        }
    }
}

impl Service<RequestBlockHeader> for InMemoryState {
    fn ready(&mut self) -> Result<(), ChainError> {
        self.poll_ready()
    }

    fn call(&mut self, req: RequestBlockHeader) -> Result<Response, ChainError> {
        InMemoryState::call(self, req)
    }
}

} // verus!
