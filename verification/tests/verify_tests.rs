//! Tests for the header verifier: the clock check, the check ordering, and
//! the commit path.

use chrono::offset::{LocalResult, TimeZone};
use chrono::{Duration, Utc};
use zebra_headers::error::ChainError;
use zebra_headers::header::{BlockHeader, BlockHeaderHash, BlockHeight, SOLUTION_LENGTH};
use zebra_headers::in_memory::InMemoryState;
use zebra_headers::state::{QueryType, RequestBlockHeader, Response};
use zebra_headers::verify::{interpret_add_response, node_time_check, BlockHeaderVerifier};

fn header_at_time(time: u32) -> BlockHeader {
    BlockHeader {
        version: 4,
        previous_block_hash: BlockHeaderHash([1; 32]),
        merkle_root_hash: [2; 32],
        final_sapling_root_hash: [3; 32],
        time,
        bits: 0x1f07ffff,
        nonce: [0; 32],
        solution: [0; SOLUTION_LENGTH],
    }
}

#[test]
fn time_check_past_block() {
    // A header timestamp from the distant past (a late-2018 value, the era
    // of long-settled mainnet blocks). The check is non-deterministic, but
    // it is unlikely that the test machine has a clock far enough in the
    // past for it to fail.
    let now = Utc::now().timestamp();
    node_time_check(1_540_000_000, now)
        .expect("the header time from a long-past block should be valid");
}

#[test]
fn time_check_now() {
    // These checks are deterministic, because all the times are offset
    // from the current time.
    let now = Utc::now().timestamp();
    let three_hours_in_the_past = now - 3 * 3600;
    let two_hours_in_the_future = now + 2 * 3600;
    let two_hours_and_one_second_in_the_future = now + 2 * 3600 + 1;

    node_time_check(now, now).expect("the current time should be valid as a block header time");
    node_time_check(three_hours_in_the_past, now)
        .expect("a past time should be valid as a block header time");
    node_time_check(two_hours_in_the_future, now)
        .expect("2 hours in the future should be valid as a block header time");
    node_time_check(two_hours_and_one_second_in_the_future, now).expect_err(
        "2 hours and 1 second in the future should be invalid as a block header time",
    );

    // Now invert the tests
    // 3 hours in the future should fail
    node_time_check(now, three_hours_in_the_past)
        .expect_err("3 hours in the future should be invalid as a block header time");
    // The past should succeed
    node_time_check(now, two_hours_in_the_future)
        .expect("2 hours in the past should be valid as a block header time");
    node_time_check(now, two_hours_and_one_second_in_the_future)
        .expect("2 hours and 1 second in the past should be valid as a block header time");
}

/// Valid unix epoch timestamps for blocks, in seconds
static BLOCK_HEADER_VALID_TIMESTAMPS: &[i64] = &[
    // These times are currently invalid DateTimes, but they could
    // become valid in future chrono versions
    i64::MIN,
    i64::MIN + 1,
    // These times are valid DateTimes
    (u32::MIN as i64) - 1,
    (u32::MIN as i64),
    (u32::MIN as i64) + 1,
    (i32::MIN as i64) - 1,
    (i32::MIN as i64),
    (i32::MIN as i64) + 1,
    -1,
    0,
    1,
    // maximum nExpiryHeight or lock_time, in blocks
    499_999_999,
    // minimum lock_time, in seconds
    500_000_000,
    500_000_001,
];

/// Invalid unix epoch timestamps for blocks, in seconds
static BLOCK_HEADER_INVALID_TIMESTAMPS: &[i64] = &[
    (i32::MAX as i64) - 1,
    (i32::MAX as i64),
    (i32::MAX as i64) + 1,
    (u32::MAX as i64) - 1,
    (u32::MAX as i64),
    (u32::MAX as i64) + 1,
    // These times are currently invalid DateTimes, but they could
    // become valid in future chrono versions
    i64::MAX - 1,
    i64::MAX,
];

#[test]
fn time_check_fixed() {
    // These checks are non-deterministic, but the times are all in the
    // distant past or far future. So it's unlikely that the test
    // machine will have a clock that makes these tests fail.
    let now = Utc::now().timestamp();

    for valid_timestamp in BLOCK_HEADER_VALID_TIMESTAMPS {
        let block_header_time = match Utc.timestamp_opt(*valid_timestamp, 0) {
            LocalResult::Single(time) => time.timestamp(),
            LocalResult::None => {
                // Skip the test if the timestamp is invalid
                continue;
            }
            LocalResult::Ambiguous(_, _) => {
                // Utc doesn't have ambiguous times
                unreachable!();
            }
        };
        node_time_check(block_header_time, now)
            .expect("the time should be valid as a block header time");
        // Invert the check, leading to an invalid time
        node_time_check(now, block_header_time)
            .expect_err("the inverse comparison should be invalid");
    }

    for invalid_timestamp in BLOCK_HEADER_INVALID_TIMESTAMPS {
        let block_header_time = match Utc.timestamp_opt(*invalid_timestamp, 0) {
            LocalResult::Single(time) => time.timestamp(),
            LocalResult::None => {
                // Skip the test if the timestamp is invalid
                continue;
            }
            LocalResult::Ambiguous(_, _) => {
                // Utc doesn't have ambiguous times
                unreachable!();
            }
        };
        node_time_check(block_header_time, now)
            .expect_err("the time should be invalid as a block header time");
        // Invert the check, leading to a valid time
        node_time_check(now, block_header_time)
            .expect("the inverse comparison should be valid");
    }
}

#[test]
fn time_check_error_kinds() {
    let now = Utc::now().timestamp();
    assert_eq!(
        node_time_check(now + 3 * 3600, now),
        Err(ChainError::FutureTimestamp)
    );
    // a clock reading so late that the tolerance cannot be added
    assert_eq!(node_time_check(0, i64::MAX), Err(ChainError::TimeOverflow));
    assert_eq!(node_time_check(now, now + 2 * 3600), Ok(()));
}

#[test]
fn verifier_rejects_future_time_before_solution() {
    // A header whose timestamp is three hours in the future and whose
    // proof-of-work solution is garbage: the cheap clock check must decide.
    let future = Utc::now() + Duration::hours(3);
    let header = header_at_time(future.timestamp() as u32);
    let hash = header.hash();
    let state = InMemoryState::new();
    let mut verifier = BlockHeaderVerifier::new(state);
    verifier.poll_ready().unwrap();
    assert_eq!(
        verifier.call(header, BlockHeight(0)),
        Err(ChainError::FutureTimestamp)
    );
    // and nothing reached the state
    let mut state = InMemoryState::new();
    assert_eq!(
        state.call(RequestBlockHeader::GetBlockHeader {
            query: QueryType::ByHash(hash)
        }),
        Err(ChainError::NotFound)
    );
}

#[test]
fn verifier_rejects_invalid_solution() {
    // A header with a fine timestamp but a garbage solution fails the
    // proof-of-work check, after the clock check passed.
    let header = header_at_time(Utc::now().timestamp() as u32);
    let state = InMemoryState::new();
    let mut verifier = BlockHeaderVerifier::new(state);
    assert_eq!(
        verifier.call(header, BlockHeight(0)),
        Err(ChainError::InvalidProofOfWork)
    );
}

#[test]
fn add_response_interpretation() {
    let hash = BlockHeaderHash([9; 32]);
    assert_eq!(
        interpret_add_response(Ok(Response::Added { hash, height: BlockHeight(3) })),
        Ok((hash, BlockHeight(3)))
    );
    assert_eq!(
        interpret_add_response(Ok(Response::Depth(None))),
        Err(ChainError::UnexpectedResponse)
    );
    assert_eq!(
        interpret_add_response(Err(ChainError::DuplicateHash)),
        Err(ChainError::DuplicateHash)
    );
}
