//! Tests for the header wire encoding and identity hash.

use sha2::Digest;
use zebra_headers::error::ChainError;
use zebra_headers::header::{
    deserialize_header, serialize_header, BlockHeader, BlockHeaderHash, HEADER_LENGTH,
    SOLUTION_LENGTH,
};

fn test_header(version: u32, prev: [u8; 32], time: u32, seed: u8) -> BlockHeader {
    BlockHeader {
        version,
        previous_block_hash: BlockHeaderHash(prev),
        merkle_root_hash: [seed; 32],
        final_sapling_root_hash: [seed.wrapping_add(1); 32],
        time,
        bits: 0x1f07ffff,
        nonce: [seed.wrapping_add(2); 32],
        solution: [seed.wrapping_add(3); SOLUTION_LENGTH],
    }
}

#[test]
fn serialize_has_wire_length() {
    let header = test_header(4, [7; 32], 1_540_000_000, 1);
    let bytes = serialize_header(&header);
    assert_eq!(bytes.len(), HEADER_LENGTH);
    // version is little-endian at the front
    assert_eq!(&bytes[0..4], &[4, 0, 0, 0]);
    // the solution length marker sits between nonce and solution
    assert_eq!(&bytes[140..143], &[0xfd, 0x40, 0x05]);
}

#[test]
fn serialize_deserialize_round_trip() {
    let header = test_header(4, [7; 32], 1_540_000_000, 9);
    let bytes = serialize_header(&header);
    let decoded = deserialize_header(&bytes).expect("canonical bytes should deserialize");
    assert_eq!(decoded, header);
}

#[test]
fn deserialize_rejects_truncated_record() {
    let header = test_header(4, [1; 32], 42, 0);
    let mut bytes = serialize_header(&header);
    bytes.pop();
    match deserialize_header(&bytes) {
        Err(ChainError::CorruptRecord) => {}
        other => panic!("truncated record should be corrupt, got {:?}", other),
    }
}

#[test]
fn deserialize_rejects_bad_marker() {
    let header = test_header(4, [1; 32], 42, 0);
    let mut bytes = serialize_header(&header);
    bytes[141] = 0x41;
    match deserialize_header(&bytes) {
        Err(ChainError::CorruptRecord) => {}
        other => panic!("bad marker should be corrupt, got {:?}", other),
    }
}

#[test]
fn hash_is_stable_across_repeated_hashing() {
    let header = test_header(4, [3; 32], 1_540_000_000, 5);
    let first = header.hash();
    let second = header.hash();
    assert_eq!(first, second);
    let same_again = test_header(4, [3; 32], 1_540_000_000, 5);
    assert_eq!(same_again.hash(), first);
}

#[test]
fn hash_is_double_sha256_of_wire_bytes() {
    let header = test_header(4, [3; 32], 1_540_000_000, 5);
    let bytes = serialize_header(&header);
    let once = sha2::Sha256::digest(&bytes);
    let twice = sha2::Sha256::digest(&once);
    assert_eq!(header.hash().0.as_slice(), twice.as_slice());
}

#[test]
fn distinct_headers_hash_differently() {
    let a = test_header(4, [3; 32], 1_540_000_000, 5);
    let b = test_header(4, [3; 32], 1_540_000_001, 5);
    assert_ne!(a.hash(), b.hash());
    assert_ne!(a, b);
}
