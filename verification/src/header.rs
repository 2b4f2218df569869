//! Block headers: the fixed binary wire encoding, the derived identity hash,
//! and the Equihash solution check.
//!
//! A header's identity is the double SHA-256 of its serialized byte form. The
//! byte form matches the network wire format, so stored records are
//! byte-for-byte what peers send.

use vstd::prelude::*;

use sha2::Digest;

use crate::error::ChainError;

verus! {

/// Length in bytes of an Equihash solution for the consensus parameters used here.
pub const SOLUTION_LENGTH: usize = 1344;

/// Length in bytes of a serialized header:
/// 4 (version) + 3 * 32 (hash references and roots) + 4 (time) + 4 (bits)
/// + 32 (nonce) + 3 (solution length marker) + 1344 (solution).
pub const HEADER_LENGTH: usize = 1487;

/// The Equihash input is the serialized header up to, but not including, the nonce.
pub const EQUIHASH_INPUT_LENGTH: usize = 108;

/// Equihash parameter `n` of the consensus rules encoded here.
pub const EQUIHASH_N: u32 = 200;

/// Equihash parameter `k` of the consensus rules encoded here.
pub const EQUIHASH_K: u32 = 9;

/// The identity of a block header: the double SHA-256 of its serialized bytes.
#[derive(Clone, Copy, Debug)]
pub struct BlockHeaderHash(pub [u8; 32]);

impl View for BlockHeaderHash {
    type V = Seq<u8>;

    open spec fn view(&self) -> Seq<u8> {
        self.0@
    }
}

impl PartialEq for BlockHeaderHash {
    fn eq(&self, other: &Self) -> bool {
        bytes32_eq(&self.0, &other.0)
    }
}

impl Eq for BlockHeaderHash {}

impl vstd::std_specs::cmp::PartialEqSpecImpl for BlockHeaderHash {
    open spec fn obeys_eq_spec() -> bool {
        true
    }

    open spec fn eq_spec(&self, other: &Self) -> bool {
        self.0@ == other.0@
    }
}

/// A chain position. Exactly one header may occupy a given height.
#[derive(Clone, Copy, Debug, PartialEq, Eq, Structural)]
pub struct BlockHeight(pub u32);

/// The mathematical model of a block header: each field as a plain value.
pub ghost struct HeaderView {
    pub version: u32,
    pub previous_block_hash: Seq<u8>,
    pub merkle_root_hash: Seq<u8>,
    pub final_sapling_root_hash: Seq<u8>,
    pub time: u32,
    pub bits: u32,
    pub nonce: Seq<u8>,
    pub solution: Seq<u8>,
}

impl HeaderView {
    /// Field widths of a well-formed header model.
    pub open spec fn wf(self) -> bool {
        &&& self.previous_block_hash.len() == 32
        &&& self.merkle_root_hash.len() == 32
        &&& self.final_sapling_root_hash.len() == 32
        &&& self.nonce.len() == 32
        &&& self.solution.len() == SOLUTION_LENGTH
    }
}

/// A fixed-structure consensus record. Immutable once constructed; its
/// identity is [`BlockHeader::hash`].
#[derive(Clone, Copy, Debug)]
pub struct BlockHeader {
    /// Format version of this header.
    pub version: u32,
    /// Hash of the previous header in the chain.
    pub previous_block_hash: BlockHeaderHash,
    /// Merkle root of the block's transactions.
    pub merkle_root_hash: [u8; 32],
    /// Root of the note commitment tree as of this block.
    pub final_sapling_root_hash: [u8; 32],
    /// Wall-clock timestamp, in unix seconds as carried on the wire.
    pub time: u32,
    /// Compact difficulty threshold.
    pub bits: u32,
    /// Proof-of-work nonce.
    pub nonce: [u8; 32],
    /// Proof-of-work solution blob.
    pub solution: [u8; SOLUTION_LENGTH],
}

impl View for BlockHeader {
    type V = HeaderView;

    open spec fn view(&self) -> HeaderView {
        HeaderView {
            version: self.version,
            previous_block_hash: self.previous_block_hash.0@,
            merkle_root_hash: self.merkle_root_hash@,
            final_sapling_root_hash: self.final_sapling_root_hash@,
            time: self.time,
            bits: self.bits,
            nonce: self.nonce@,
            solution: self.solution@,
        }
    }
}

impl PartialEq for BlockHeader {
    fn eq(&self, other: &Self) -> bool {
        self.version == other.version && bytes32_eq(&self.previous_block_hash.0, &other.previous_block_hash.0)
            && bytes32_eq(&self.merkle_root_hash, &other.merkle_root_hash)
            && bytes32_eq(&self.final_sapling_root_hash, &other.final_sapling_root_hash)
            && self.time == other.time && self.bits == other.bits && bytes32_eq(&self.nonce, &other.nonce)
            && array_eq(&self.solution, &other.solution)
    }
}

impl Eq for BlockHeader {}

impl vstd::std_specs::cmp::PartialEqSpecImpl for BlockHeader {
    open spec fn obeys_eq_spec() -> bool {
        true
    }

    open spec fn eq_spec(&self, other: &Self) -> bool {
        self@ == other@
    }
}

/// Byte-wise equality of two fixed-size byte arrays.
pub fn array_eq<const N: usize>(a: &[u8; N], b: &[u8; N]) -> (r: bool)
    ensures
        r == (a@ == b@),
{
    let mut i: usize = 0;
    while i < N
        invariant
            0 <= i <= N,
            forall|j: int| 0 <= j < i ==> a@[j] == b@[j],
        decreases N - i,
    {
        if a[i] != b[i] {
            return false;
        }
        i += 1;
    }
    proof {
        assert(a@ =~= b@);
    }
    true
}

/// Byte-wise equality of two 32-byte arrays.
pub fn bytes32_eq(a: &[u8; 32], b: &[u8; 32]) -> (r: bool)
    ensures
        r == (a@ == b@),
{
    array_eq::<32>(a, b)
}

/// The four little-endian bytes of a 32-bit value.
pub open spec fn u32_le_bytes(x: u32) -> Seq<u8> {
    seq![
        (x & 0xff) as u8,
        ((x >> 8) & 0xff) as u8,
        ((x >> 16) & 0xff) as u8,
        ((x >> 24) & 0xff) as u8,
    ]
}

/// The 32-bit value carried by four little-endian bytes.
pub open spec fn u32_from_le_bytes(s: Seq<u8>) -> u32
    recommends
        s.len() == 4,
{
    (s[0] as u32) | ((s[1] as u32) << 8) | ((s[2] as u32) << 16) | ((s[3] as u32) << 24)
}

/// Reading back the little-endian bytes of a value yields the value.
pub proof fn lemma_u32_le_round_trip(x: u32)
    ensures
        u32_from_le_bytes(u32_le_bytes(x)) == x,
{
    assert(((x & 0xff) as u8 as u32) | (((x >> 8) & 0xff) as u8 as u32) << 8 | (((x >> 16)
        & 0xff) as u8 as u32) << 16 | (((x >> 24) & 0xff) as u8 as u32) << 24 == x) by (bit_vector);
}

/// The canonical byte encoding of a header, matching the network wire format.
pub open spec fn spec_serialize(h: HeaderView) -> Seq<u8> {
    u32_le_bytes(h.version) + h.previous_block_hash + h.merkle_root_hash
        + h.final_sapling_root_hash + u32_le_bytes(h.time) + u32_le_bytes(h.bits) + h.nonce
        + seq![0xfdu8, 0x40u8, 0x05u8] + h.solution
}

/// The header encoded by a byte string, or `None` when the bytes are not a
/// well-formed header record.
pub open spec fn spec_parse(b: Seq<u8>) -> Option<HeaderView> {
    if b.len() == HEADER_LENGTH && b[140] == 0xfdu8 && b[141] == 0x40u8 && b[142] == 0x05u8 {
        Some(
            HeaderView {
                version: u32_from_le_bytes(b.subrange(0, 4)),
                previous_block_hash: b.subrange(4, 36),
                merkle_root_hash: b.subrange(36, 68),
                final_sapling_root_hash: b.subrange(68, 100),
                time: u32_from_le_bytes(b.subrange(100, 104)),
                bits: u32_from_le_bytes(b.subrange(104, 108)),
                nonce: b.subrange(108, 140),
                solution: b.subrange(143, HEADER_LENGTH as int),
            },
        )
    } else {
        None
    }
}

/// Decoding the canonical encoding of a well-formed header yields the header
/// unchanged.
pub proof fn lemma_round_trip(h: HeaderView)
    requires
        h.wf(),
    ensures
        spec_parse(spec_serialize(h)) == Some(h),
{
    let b = spec_serialize(h);
    assert(b.len() == HEADER_LENGTH);
    assert(b.subrange(0, 4) =~= u32_le_bytes(h.version));
    assert(b.subrange(4, 36) =~= h.previous_block_hash);
    assert(b.subrange(36, 68) =~= h.merkle_root_hash);
    assert(b.subrange(68, 100) =~= h.final_sapling_root_hash);
    assert(b.subrange(100, 104) =~= u32_le_bytes(h.time));
    assert(b.subrange(104, 108) =~= u32_le_bytes(h.bits));
    assert(b.subrange(108, 140) =~= h.nonce);
    assert(b.subrange(143, HEADER_LENGTH as int) =~= h.solution);
    assert(b[140] == 0xfdu8 && b[141] == 0x40u8 && b[142] == 0x05u8);
    lemma_u32_le_round_trip(h.version);
    lemma_u32_le_round_trip(h.time);
    lemma_u32_le_round_trip(h.bits);
}

/// Appends the bytes of a fixed-size array.
fn push_array<const N: usize>(out: &mut Vec<u8>, bytes: &[u8; N])
    ensures
        final(out)@ == old(out)@ + bytes@,
{
    let mut i: usize = 0;
    while i < N
        invariant
            0 <= i <= N,
            out@ == old(out)@ + bytes@.subrange(0, i as int),
        decreases N - i,
    {
        out.push(bytes[i]);
        proof {
            assert(old(out)@ + bytes@.subrange(0, i as int) + seq![bytes@[i as int]] =~= old(
                out,
            )@ + bytes@.subrange(0, i + 1));
        }
        i += 1;
    }
    proof {
        assert(bytes@.subrange(0, N as int) =~= bytes@);
    }
}

/// Appends a 32-bit value as four little-endian bytes.
fn push_u32_le(out: &mut Vec<u8>, x: u32)
    ensures
        final(out)@ == old(out)@ + u32_le_bytes(x),
{
    proof {
        assert(x & 0xff < 256 && (x >> 8) & 0xff < 256 && (x >> 16) & 0xff < 256 && (x >> 24)
            & 0xff < 256) by (bit_vector);
    }
    out.push((x & 0xff) as u8);
    out.push(((x >> 8) & 0xff) as u8);
    out.push(((x >> 16) & 0xff) as u8);
    out.push(((x >> 24) & 0xff) as u8);
    proof {
        assert(out@ =~= old(out)@ + u32_le_bytes(x));
    }
}

/// Serializes a header to its canonical wire bytes.
pub fn serialize_header(header: &BlockHeader) -> (r: Vec<u8>)
    ensures
        r@ == spec_serialize(header@),
        r@.len() == HEADER_LENGTH,
{
    let mut out: Vec<u8> = Vec::new();
    push_u32_le(&mut out, header.version);
    push_array(&mut out, &header.previous_block_hash.0);
    push_array(&mut out, &header.merkle_root_hash);
    push_array(&mut out, &header.final_sapling_root_hash);
    push_u32_le(&mut out, header.time);
    push_u32_le(&mut out, header.bits);
    push_array(&mut out, &header.nonce);
    out.push(0xfd);
    out.push(0x40);
    out.push(0x05);
    push_array(&mut out, &header.solution);
    proof {
        assert(out@ =~= spec_serialize(header@));
    }
    out
}

/// Copies `N` bytes starting at `off` into a fixed-size array.
fn read_array<const N: usize>(bytes: &[u8], off: usize) -> (r: [u8; N])
    requires
        off + N <= bytes@.len(),
        bytes@.len() <= usize::MAX,
    ensures
        r@ == bytes@.subrange(off as int, off as int + N),
{
    let mut arr: [u8; N] = vstd::array::array_fill_for_copy_types(0u8);
    let mut i: usize = 0;
    while i < N
        invariant
            0 <= i <= N,
            off + N <= bytes@.len(),
            bytes@.len() <= usize::MAX,
            arr@.len() == N,
            forall|j: int| 0 <= j < i ==> arr@[j] == bytes@[off + j],
        decreases N - i,
    {
        arr[i] = bytes[off + i];
        i += 1;
    }
    proof {
        assert(arr@ =~= bytes@.subrange(off as int, off as int + N));
    }
    arr
}

/// Reads a 32-bit value from four little-endian bytes at `off`.
fn read_u32_le(bytes: &[u8], off: usize) -> (r: u32)
    requires
        off + 4 <= bytes@.len(),
        bytes@.len() <= usize::MAX,
    ensures
        r == u32_from_le_bytes(bytes@.subrange(off as int, off as int + 4)),
{
    let b0 = *vstd::slice::slice_index_get(bytes, off);
    let b1 = *vstd::slice::slice_index_get(bytes, off + 1);
    let b2 = *vstd::slice::slice_index_get(bytes, off + 2);
    let b3 = *vstd::slice::slice_index_get(bytes, off + 3);
    (b0 as u32) | ((b1 as u32) << 8u32) | ((b2 as u32) << 16u32) | ((b3 as u32) << 24u32)
}

/// Decodes a header from its canonical wire bytes. Corrupt or truncated
/// records are reported as an error, never a panic.
pub fn deserialize_header(bytes: &[u8]) -> (r: Result<BlockHeader, ChainError>)
    ensures
        match r {
            Ok(h) => spec_parse(bytes@) == Some(h@) && h@.wf(),
            Err(e) => spec_parse(bytes@) is None && e == ChainError::CorruptRecord,
        },
{
    if bytes.len() != HEADER_LENGTH {
        return Err(ChainError::CorruptRecord);
    }
    let m0 = *vstd::slice::slice_index_get(bytes, 140);
    let m1 = *vstd::slice::slice_index_get(bytes, 141);
    let m2 = *vstd::slice::slice_index_get(bytes, 142);
    if m0 != 0xfd || m1 != 0x40 || m2 != 0x05 {
        return Err(ChainError::CorruptRecord);
    }
    let header = BlockHeader {
        version: read_u32_le(bytes, 0),
        previous_block_hash: BlockHeaderHash(read_array::<32>(bytes, 4)),
        merkle_root_hash: read_array::<32>(bytes, 36),
        final_sapling_root_hash: read_array::<32>(bytes, 68),
        time: read_u32_le(bytes, 100),
        bits: read_u32_le(bytes, 104),
        nonce: read_array::<32>(bytes, 108),
        solution: read_array::<SOLUTION_LENGTH>(bytes, 143),
    };
    Ok(header)
}

/// The SHA-256 digest of a byte string, named; its value is fixed by the
/// outside implementation.
pub uninterp spec fn sha256_of(data: Seq<u8>) -> Seq<u8>;

/// Relies on sha2::Sha256::digest: the SHA-256 of the input, a function of the
/// input bytes alone, 32 bytes long.
#[verifier::external_body]
fn sha256(data: &[u8]) -> (r: [u8; 32])
    ensures
        r@ == sha256_of(data@),
{
    sha2::Sha256::digest(data).into()
}

/// The identity of a header: the double SHA-256 of its canonical encoding.
pub open spec fn hash_of_header(h: HeaderView) -> Seq<u8> {
    sha256_of(sha256_of(spec_serialize(h)))
}

/// Whether an Equihash solution is valid for the given parameters, input,
/// nonce and solution; named, its value fixed by the outside implementation.
pub uninterp spec fn equihash_ok(n: u32, k: u32, input: Seq<u8>, nonce: Seq<u8>, solution: Seq<u8>) -> bool;

/// Relies on equihash::is_valid_solution: validity of an Equihash solution is
/// a function of the parameters, input, nonce and solution alone. Only the
/// consensus parameters used by this library are admitted: for them the call
/// is total — a malformed solution is an error, never a panic — while other
/// parameter pairs can reach assertions inside the solution decoder.
#[verifier::external_body]
fn equihash_check(n: u32, k: u32, input: &[u8], nonce: &[u8; 32], solution: &[u8]) -> (r: bool)
    requires
        n == EQUIHASH_N,
        k == EQUIHASH_K,
    ensures
        r == equihash_ok(n, k, input@, nonce@, solution@),
{
    equihash::is_valid_solution(n, k, input, nonce, solution).is_ok()
}

/// Whether a header's embedded solution passes the proof-of-work predicate for
/// its declared difficulty bits and nonce.
pub open spec fn solution_valid(h: HeaderView) -> bool {
    equihash_ok(
        EQUIHASH_N,
        EQUIHASH_K,
        spec_serialize(h).take(EQUIHASH_INPUT_LENGTH as int),
        h.nonce,
        h.solution,
    )
}

impl BlockHeader {
    /// Computes this header's identity: the double SHA-256 of its serialized
    /// bytes. Deterministic, so repeated hashing returns the same value.
    pub fn hash(&self) -> (r: BlockHeaderHash)
        ensures
            r@ == hash_of_header(self@),
    {
        let bytes = serialize_header(self);
        let first = sha256(bytes.as_slice());
        BlockHeaderHash(sha256(first.as_slice()))
    }

    /// Checks this header's embedded proof-of-work solution against its
    /// declared difficulty bits and nonce.
    pub fn is_equihash_solution_valid(&self) -> (r: Result<(), ChainError>)
        ensures
            r is Ok <==> solution_valid(self@),
            r is Err ==> r == Err::<(), ChainError>(ChainError::InvalidProofOfWork),
    {
        let bytes = serialize_header(self);
        let input = vstd::slice::slice_subrange(bytes.as_slice(), 0, EQUIHASH_INPUT_LENGTH);
        if equihash_check(EQUIHASH_N, EQUIHASH_K, input, &self.nonce, self.solution.as_slice()) {
            Ok(())
        } else {
            Err(ChainError::InvalidProofOfWork)
        }
    }
}

} // verus!
