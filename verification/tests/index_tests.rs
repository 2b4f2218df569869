//! Tests for the in-process header index and the in-memory service.

use zebra_headers::block_index::BlockIndex;
use zebra_headers::error::ChainError;
use zebra_headers::header::{BlockHeader, BlockHeaderHash, BlockHeight, SOLUTION_LENGTH};
use zebra_headers::in_memory::InMemoryState;
use zebra_headers::state::{QueryType, RequestBlockHeader, Response};

fn header_with(seed: u8) -> BlockHeader {
    BlockHeader {
        version: 4,
        previous_block_hash: BlockHeaderHash([seed; 32]),
        merkle_root_hash: [seed.wrapping_add(1); 32],
        final_sapling_root_hash: [seed.wrapping_add(2); 32],
        time: 1_540_000_000u32.wrapping_add(seed as u32),
        bits: 0x1f07ffff,
        nonce: [seed.wrapping_add(3); 32],
        solution: [0; SOLUTION_LENGTH],
    }
}

#[test]
fn insert_and_query() {
    let mut index = BlockIndex::new();
    let header = header_with(1);
    let (hash, height) = index
        .insert(header, BlockHeight(7))
        .expect("a fresh header should insert");
    assert_eq!(hash, header.hash());
    assert_eq!(height, BlockHeight(7));
    assert_eq!(index.get(QueryType::ByHash(hash)).unwrap(), Some(header));
    assert_eq!(
        index.get(QueryType::ByHeight(BlockHeight(7))).unwrap(),
        Some(header)
    );
    assert_eq!(index.get_height(hash).unwrap(), Some(BlockHeight(7)));
    assert!(index.contains(&hash).unwrap());
    assert_eq!(index.get(QueryType::ByHeight(BlockHeight(8))).unwrap(), None);
    assert!(!index.contains(&BlockHeaderHash([0xaa; 32])).unwrap());
}

#[test]
fn no_overwrite_on_duplicate_height() {
    let mut index = BlockIndex::new();
    let first = header_with(1);
    let second = header_with(2);
    let (first_hash, _) = index.insert(first, BlockHeight(5)).unwrap();
    match index.insert(second, BlockHeight(5)) {
        Err(ChainError::DuplicateHeight) => {}
        other => panic!("expected DuplicateHeight, got {:?}", other),
    }
    // the first header's query results are unchanged
    assert_eq!(
        index.get(QueryType::ByHeight(BlockHeight(5))).unwrap(),
        Some(first)
    );
    assert_eq!(index.get(QueryType::ByHash(first_hash)).unwrap(), Some(first));
    assert!(!index.contains(&second.hash()).unwrap());
}

#[test]
fn no_overwrite_on_duplicate_hash() {
    let mut index = BlockIndex::new();
    let header = header_with(1);
    index.insert(header, BlockHeight(5)).unwrap();
    match index.insert(header, BlockHeight(6)) {
        Err(ChainError::DuplicateHash) => {}
        other => panic!("expected DuplicateHash, got {:?}", other),
    }
    assert_eq!(index.get(QueryType::ByHeight(BlockHeight(6))).unwrap(), None);
    assert_eq!(
        index.get(QueryType::ByHeight(BlockHeight(5))).unwrap(),
        Some(header)
    );
}

#[test]
fn tip_reflects_max_height_regardless_of_order() {
    let mut index = BlockIndex::new();
    let mut by_height = std::collections::HashMap::new();
    for (seed, h) in [(1u8, 5u32), (2, 2), (3, 9), (4, 3)] {
        let header = header_with(seed);
        by_height.insert(h, header);
        index.insert(header, BlockHeight(h)).unwrap();
    }
    let (header, hash, height) = index.get_tip().unwrap().expect("non-empty index has a tip");
    assert_eq!(height, BlockHeight(9));
    assert_eq!(header, by_height[&9]);
    assert_eq!(hash, by_height[&9].hash());
}

#[test]
fn tip_of_empty_index_is_none() {
    let index = BlockIndex::new();
    assert!(index.get_tip().unwrap().is_none());
}

#[test]
fn depth_semantics() {
    let mut state = InMemoryState::new();
    let mut hash_of_height = std::collections::HashMap::new();
    for h in 0u32..=10 {
        let header = header_with(h as u8);
        hash_of_height.insert(h, header.hash());
        state
            .call(RequestBlockHeader::AddBlockHeader {
                block_header: header,
                block_height: BlockHeight(h),
            })
            .unwrap();
    }
    match state
        .call(RequestBlockHeader::GetDepth { hash: hash_of_height[&7] })
        .unwrap()
    {
        Response::Depth(d) => assert_eq!(d, Some(3)),
        other => panic!("expected a depth response, got {:?}", other),
    }
    // an unknown hash yields an empty depth, not an error
    match state
        .call(RequestBlockHeader::GetDepth { hash: BlockHeaderHash([0xee; 32]) })
        .unwrap()
    {
        Response::Depth(d) => assert_eq!(d, None),
        other => panic!("expected a depth response, got {:?}", other),
    }
}

#[test]
fn service_add_and_lookups() {
    let mut state = InMemoryState::new();
    let header = header_with(1);
    let hash = header.hash();
    match state
        .call(RequestBlockHeader::AddBlockHeader {
            block_header: header,
            block_height: BlockHeight(0),
        })
        .unwrap()
    {
        Response::Added { hash: h, height } => {
            assert_eq!(h, hash);
            assert_eq!(height, BlockHeight(0));
        }
        other => panic!("expected Added, got {:?}", other),
    }
    match state
        .call(RequestBlockHeader::GetBlockHeader { query: QueryType::ByHash(hash) })
        .unwrap()
    {
        Response::BlockHeader { block_header, block_height } => {
            assert_eq!(block_header, header);
            assert_eq!(block_height, BlockHeight(0));
        }
        other => panic!("expected BlockHeader, got {:?}", other),
    }
    match state
        .call(RequestBlockHeader::GetBlockHeight { hash })
        .unwrap()
    {
        Response::BlockHeight { block_height } => assert_eq!(block_height, BlockHeight(0)),
        other => panic!("expected BlockHeight, got {:?}", other),
    }
    match state.call(RequestBlockHeader::GetTip).unwrap() {
        Response::Tip { hash: h, height } => {
            assert_eq!(h, hash);
            assert_eq!(height, BlockHeight(0));
        }
        other => panic!("expected Tip, got {:?}", other),
    }
}

#[test]
fn service_distinguishes_not_found() {
    let mut state = InMemoryState::new();
    let missing = BlockHeaderHash([5; 32]);
    assert_eq!(
        state.call(RequestBlockHeader::GetBlockHeader {
            query: QueryType::ByHash(missing)
        }),
        Err(ChainError::NotFound)
    );
    assert_eq!(
        state.call(RequestBlockHeader::GetBlockHeight { hash: missing }),
        Err(ChainError::NotFound)
    );
    assert_eq!(
        state.call(RequestBlockHeader::GetTip),
        Err(ChainError::NotFound)
    );
    // but depth of an unknown hash is a soft empty result
    assert_eq!(
        state.call(RequestBlockHeader::GetDepth { hash: missing }),
        Ok(Response::Depth(None))
    );
}
