//! Header-synchronization core of a lightweight blockchain client.
//!
//! The crate tracks a local index of block headers, verifies newly received
//! headers against consensus rules, and persists them durably while serving
//! point lookups by hash, by height, and "current tip" queries.

pub mod block_index;
pub mod error;
pub mod header;
pub mod ibc;
pub mod in_memory;
pub mod on_disk;
pub mod state;
pub mod sync;
pub mod verify;
pub mod worker;
