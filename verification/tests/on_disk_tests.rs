//! Tests for the durable index service, on an ephemeral store.

use zebra_headers::error::ChainError;
use zebra_headers::header::{BlockHeader, BlockHeaderHash, BlockHeight, SOLUTION_LENGTH};
use zebra_headers::in_memory::InMemoryState;
use zebra_headers::on_disk::SledState;
use zebra_headers::state::{Config, QueryType, RequestBlockHeader, Response};

fn ephemeral_config() -> Config {
    Config {
        cache_dir: String::from("./.zebra-state-test"),
        memory_cache_bytes: 64 * 1024 * 1024,
        ephemeral: true,
    }
}

fn header_with(seed: u8) -> BlockHeader {
    BlockHeader {
        version: 4,
        previous_block_hash: BlockHeaderHash([seed; 32]),
        merkle_root_hash: [seed.wrapping_add(1); 32],
        final_sapling_root_hash: [seed.wrapping_add(2); 32],
        time: 1_540_000_000u32.wrapping_add(seed as u32),
        bits: 0x1f07ffff,
        nonce: [seed.wrapping_add(3); 32],
        solution: [0; SOLUTION_LENGTH],
    }
}

/// A chain of headers, each referencing the previous one.
fn chain(len: u8) -> Vec<BlockHeader> {
    let mut headers: Vec<BlockHeader> = Vec::new();
    let mut prev = BlockHeaderHash([0; 32]);
    for seed in 0..len {
        let mut h = header_with(seed);
        h.previous_block_hash = prev;
        prev = h.hash();
        headers.push(h);
    }
    headers
}

#[test]
fn durable_insert_and_query() {
    let mut state = SledState::new(&ephemeral_config()).expect("ephemeral store should open");
    let header = header_with(1);
    let (hash, height) = state.insert(header, BlockHeight(7)).unwrap();
    assert_eq!(hash, header.hash());
    assert_eq!(height, BlockHeight(7));
    assert_eq!(state.get(QueryType::ByHash(hash)).unwrap(), Some(header));
    assert_eq!(
        state.get(QueryType::ByHeight(BlockHeight(7))).unwrap(),
        Some(header)
    );
    assert_eq!(state.get_height(hash).unwrap(), Some(BlockHeight(7)));
    assert!(state.contains(&hash).unwrap());
    assert!(!state.contains(&BlockHeaderHash([0xbb; 32])).unwrap());
    assert_eq!(state.get(QueryType::ByHeight(BlockHeight(8))).unwrap(), None);
}

#[test]
fn durable_rejects_duplicates() {
    let mut state = SledState::new(&ephemeral_config()).unwrap();
    let first = header_with(1);
    let second = header_with(2);
    state.insert(first, BlockHeight(5)).unwrap();
    assert_eq!(
        state.insert(second, BlockHeight(5)),
        Err(ChainError::DuplicateHeight)
    );
    assert_eq!(
        state.insert(first, BlockHeight(6)),
        Err(ChainError::DuplicateHash)
    );
    // the first record is untouched
    assert_eq!(
        state.get(QueryType::ByHeight(BlockHeight(5))).unwrap(),
        Some(first)
    );
}

#[test]
fn durable_tip_reflects_max_height() {
    let mut state = SledState::new(&ephemeral_config()).unwrap();
    assert!(state.get_tip().unwrap().is_none());
    let mut tallest = None;
    for (seed, h) in [(1u8, 5u32), (2, 2), (3, 9), (4, 3)] {
        let header = header_with(seed);
        if h == 9 {
            tallest = Some(header);
        }
        state.insert(header, BlockHeight(h)).unwrap();
    }
    let (header, hash, height) = state.get_tip().unwrap().expect("tip should exist");
    assert_eq!(height, BlockHeight(9));
    assert_eq!(header, tallest.unwrap());
    assert_eq!(hash, tallest.unwrap().hash());
}

#[test]
fn end_to_end_scenario() {
    // three headers at heights 0, 1, 2 forming a chain
    let headers = chain(3);
    let hashes: Vec<BlockHeaderHash> = headers.iter().map(|h| h.hash()).collect();
    assert_eq!(headers[1].previous_block_hash, hashes[0]);
    assert_eq!(headers[2].previous_block_hash, hashes[1]);

    let mut durable = SledState::new(&ephemeral_config()).unwrap();
    let mut memory = InMemoryState::new();
    for (i, header) in headers.iter().enumerate() {
        let req = RequestBlockHeader::AddBlockHeader {
            block_header: *header,
            block_height: BlockHeight(i as u32),
        };
        assert_eq!(
            durable.call(req).unwrap(),
            Response::Added { hash: hashes[i], height: BlockHeight(i as u32) }
        );
        assert_eq!(
            memory.call(req).unwrap(),
            Response::Added { hash: hashes[i], height: BlockHeight(i as u32) }
        );
    }

    // the tip is height 2's hash, on both backends
    for result in [
        durable.call(RequestBlockHeader::GetTip).unwrap(),
        memory.call(RequestBlockHeader::GetTip).unwrap(),
    ] {
        assert_eq!(
            result,
            Response::Tip { hash: hashes[2], height: BlockHeight(2) }
        );
    }

    // the genesis header sits two below the tip
    for result in [
        durable
            .call(RequestBlockHeader::GetDepth { hash: hashes[0] })
            .unwrap(),
        memory
            .call(RequestBlockHeader::GetDepth { hash: hashes[0] })
            .unwrap(),
    ] {
        assert_eq!(result, Response::Depth(Some(2)));
    }

    // header 1 comes back unchanged after the full serialize/deserialize
    // round trip through the durable backend
    match durable
        .call(RequestBlockHeader::GetBlockHeader {
            query: QueryType::ByHeight(BlockHeight(1)),
        })
        .unwrap()
    {
        Response::BlockHeader { block_header, block_height } => {
            assert_eq!(block_header, headers[1]);
            assert_eq!(block_height, BlockHeight(1));
        }
        other => panic!("expected BlockHeader, got {:?}", other),
    }
}

#[test]
fn durable_service_distinguishes_not_found() {
    let mut state = SledState::new(&ephemeral_config()).unwrap();
    let missing = BlockHeaderHash([5; 32]);
    assert_eq!(
        state.call(RequestBlockHeader::GetBlockHeader {
            query: QueryType::ByHash(missing)
        }),
        Err(ChainError::NotFound)
    );
    assert_eq!(
        state.call(RequestBlockHeader::GetBlockHeight { hash: missing }),
        Err(ChainError::NotFound)
    );
    assert_eq!(
        state.call(RequestBlockHeader::GetTip),
        Err(ChainError::NotFound)
    );
    assert_eq!(
        state.call(RequestBlockHeader::GetDepth { hash: missing }),
        Ok(Response::Depth(None))
    );
}
