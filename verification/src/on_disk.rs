//! The durable header index service, built on a sorted key-value store.
//!
//! Three key spaces mirror the in-memory maps: by-hash (hash bytes →
//! serialized header), by-height (big-endian 4-byte height → serialized
//! header, so that byte order agrees with numeric order), and hash-to-height
//! (hash bytes → big-endian height). The tip is recomputed on every query by
//! taking the last key of the by-height space — one store lookup, so tip
//! always reflects durable state instead of a cached value that could go
//! stale.
//!
//! Stored bytes that fail to decode surface as `CorruptRecord`, never a
//! panic: they may indicate out-of-process interference rather than a logic
//! bug.

use vstd::prelude::*;

use crate::error::ChainError;
use crate::header::{
    deserialize_header, hash_of_header, serialize_header, spec_parse, spec_serialize, BlockHeader,
    BlockHeaderHash, BlockHeight,
};
use crate::state::{Config, QueryType, RequestBlockHeader, Response, Service};

verus! {

/// The four big-endian bytes of a height, the by-height key encoding.
pub open spec fn u32_be_bytes(x: u32) -> Seq<u8> {
    seq![
        ((x >> 24) & 0xff) as u8,
        ((x >> 16) & 0xff) as u8,
        ((x >> 8) & 0xff) as u8,
        (x & 0xff) as u8,
    ]
}

/// The height carried by four big-endian bytes.
pub open spec fn u32_from_be_bytes(s: Seq<u8>) -> u32
    recommends
        s.len() == 4,
{
    ((s[0] as u32) << 24) | ((s[1] as u32) << 16) | ((s[2] as u32) << 8) | (s[3] as u32)
}

/// Reading back the big-endian bytes of a height yields the height.
pub proof fn lemma_u32_be_round_trip(x: u32)
    ensures
        u32_from_be_bytes(u32_be_bytes(x)) == x,
{
    assert((((x >> 24) & 0xff) as u8 as u32) << 24 | (((x >> 16) & 0xff) as u8 as u32) << 16 | (((x
        >> 8) & 0xff) as u8 as u32) << 8 | ((x & 0xff) as u8 as u32) == x) by (bit_vector);
}

/// Four bytes re-encode to themselves: the big-endian encoding is onto.
pub proof fn lemma_u32_be_bytes_of_from(s: Seq<u8>)
    requires
        s.len() == 4,
    ensures
        u32_be_bytes(u32_from_be_bytes(s)) == s,
{
    let x = u32_from_be_bytes(s);
    let a = s[0];
    let b = s[1];
    let c = s[2];
    let d = s[3];
    assert(((((a as u32) << 24 | (b as u32) << 16 | (c as u32) << 8 | (d as u32)) >> 24)
        & 0xff) as u8 == a) by (bit_vector);
    assert(((((a as u32) << 24 | (b as u32) << 16 | (c as u32) << 8 | (d as u32)) >> 16)
        & 0xff) as u8 == b) by (bit_vector);
    assert(((((a as u32) << 24 | (b as u32) << 16 | (c as u32) << 8 | (d as u32)) >> 8)
        & 0xff) as u8 == c) by (bit_vector);
    assert((((a as u32) << 24 | (b as u32) << 16 | (c as u32) << 8 | (d as u32)) & 0xff) as u8 == d)
        by (bit_vector);
    assert(u32_be_bytes(x) =~= s);
}

/// Lexicographic order on byte strings, as the store orders its keys.
pub open spec fn lex_le(a: Seq<u8>, b: Seq<u8>) -> bool
    decreases a.len(),
{
    if a.len() == 0 {
        true
    } else if b.len() == 0 {
        false
    } else if a[0] < b[0] {
        true
    } else if a[0] > b[0] {
        false
    } else {
        lex_le(a.drop_first(), b.drop_first())
    }
}

/// On fixed-width big-endian keys, lexicographic order is numeric order:
/// the reason the by-height key space uses that encoding.
pub proof fn lemma_be_lex_is_numeric(x: u32, y: u32)
    ensures
        lex_le(u32_be_bytes(x), u32_be_bytes(y)) <==> x <= y,
{
    let s = u32_be_bytes(x);
    let t = u32_be_bytes(y);
    let s1 = s.drop_first();
    let t1 = t.drop_first();
    let s2 = s1.drop_first();
    let t2 = t1.drop_first();
    let s3 = s2.drop_first();
    let t3 = t2.drop_first();
    assert(s1[0] == s[1] && s2[0] == s[2] && s3[0] == s[3]);
    assert(t1[0] == t[1] && t2[0] == t[2] && t3[0] == t[3]);
    assert(lex_le(s, t) == (if s[0] < t[0] {
        true
    } else if s[0] > t[0] {
        false
    } else {
        lex_le(s1, t1)
    }));
    assert(lex_le(s1, t1) == (if s1[0] < t1[0] {
        true
    } else if s1[0] > t1[0] {
        false
    } else {
        lex_le(s2, t2)
    }));
    assert(lex_le(s2, t2) == (if s2[0] < t2[0] {
        true
    } else if s2[0] > t2[0] {
        false
    } else {
        lex_le(s3, t3)
    }));
    assert(lex_le(s3, t3) == (if s3[0] < t3[0] {
        true
    } else if s3[0] > t3[0] {
        false
    } else {
        lex_le(s3.drop_first(), t3.drop_first())
    }));
    assert(s3.drop_first().len() == 0);
    assert(lex_le(s3.drop_first(), t3.drop_first()));
    assert(lex_le(s, t) <==> (s[0] < t[0] || (s[0] == t[0] && (s[1] < t[1] || (s[1] == t[1] && (s[2]
        < t[2] || (s[2] == t[2] && s[3] <= t[3])))))));
    assert({
        let a0 = ((x >> 24) & 0xff) as u8;
        let a1 = ((x >> 16) & 0xff) as u8;
        let a2 = ((x >> 8) & 0xff) as u8;
        let a3 = (x & 0xff) as u8;
        let b0 = ((y >> 24) & 0xff) as u8;
        let b1 = ((y >> 16) & 0xff) as u8;
        let b2 = ((y >> 8) & 0xff) as u8;
        let b3 = (y & 0xff) as u8;
        (a0 < b0 || (a0 == b0 && (a1 < b1 || (a1 == b1 && (a2 < b2 || (a2 == b2 && a3 <= b3))))))
            <==> x <= y
    }) by (bit_vector);
}

/// Encodes a height as its four big-endian key bytes.
pub fn height_to_be_bytes(x: u32) -> (r: [u8; 4])
    ensures
        r@ == u32_be_bytes(x),
{
    proof {
        assert((x >> 24) & 0xff < 256 && (x >> 16) & 0xff < 256 && (x >> 8) & 0xff < 256 && x & 0xff
            < 256) by (bit_vector);
    }
    let r: [u8; 4] = [
        ((x >> 24) & 0xff) as u8,
        ((x >> 16) & 0xff) as u8,
        ((x >> 8) & 0xff) as u8,
        (x & 0xff) as u8,
    ];
    proof {
        assert(r@ =~= u32_be_bytes(x));
    }
    r
}

/// Decodes a height from four big-endian key bytes.
pub fn height_from_be_bytes(bytes: &[u8]) -> (r: u32)
    requires
        bytes@.len() == 4,
    ensures
        r == u32_from_be_bytes(bytes@),
{
    let b0 = *vstd::slice::slice_index_get(bytes, 0);
    let b1 = *vstd::slice::slice_index_get(bytes, 1);
    let b2 = *vstd::slice::slice_index_get(bytes, 2);
    let b3 = *vstd::slice::slice_index_get(bytes, 3);
    ((b0 as u32) << 24u32) | ((b1 as u32) << 16u32) | ((b2 as u32) << 8u32) | (b3 as u32)
}

/// Some stored by-height pair is malformed: its key is not a 4-byte height
/// or its value does not decode to a header.
pub open spec fn malformed_height_record(c: Map<Seq<u8>, Seq<u8>>) -> bool {
    exists|k: Seq<u8>|
        #[trigger] c.contains_key(k) && (k.len() != 4 || spec_parse(c[k]) is None)
}

/// An open handle to the durable store; opaque to verification.
#[verifier::external_body]
pub struct KvStore {
    db: sled::Db,
}

/// One keyspace of the durable store; opaque to verification, its contents
/// modeled by [`kv_contents`].
#[verifier::external_body]
pub struct KvTree {
    tree: sled::Tree,
}

/// The key-value pairs a keyspace holds, named; fixed by the store's durable
/// state. Keyspace handles are never aliased here: the store's directory
/// lock admits one open handle, and each keyspace is opened exactly once,
/// so a keyspace changes only through its one handle.
pub uninterp spec fn kv_contents(t: KvTree) -> Map<Seq<u8>, Seq<u8>>;

/// Relies on sled::Config::open with temporary(true) and sled::Db::open_tree:
/// a temporary store is created fresh, so the three keyspaces opened from it
/// hold nothing. The keyspace handles keep the store alive.
#[verifier::external_body]
fn kv_open_temporary_trees(cache_bytes: u64) -> (r: Result<(KvTree, KvTree, KvTree), ChainError>)
    ensures
        match r {
            Ok((a, b, c)) => kv_contents(a) == Map::<Seq<u8>, Seq<u8>>::empty() && kv_contents(b)
                == Map::<Seq<u8>, Seq<u8>>::empty() && kv_contents(c) == Map::<
                Seq<u8>,
                Seq<u8>,
            >::empty(),
            Err(e) => e == ChainError::StoreFailure,
        },
{
    let config = sled::Config::default().cache_capacity(cache_bytes).mode(
        sled::Mode::LowSpace,
    ).temporary(true);
    let db = config.open().map_err(|_| ChainError::StoreFailure)?;
    let a = db.open_tree("by_hash").map_err(|_| ChainError::StoreFailure)?;
    let b = db.open_tree("by_height").map_err(|_| ChainError::StoreFailure)?;
    let c = db.open_tree("hash_height").map_err(|_| ChainError::StoreFailure)?;
    Ok((KvTree { tree: a }, KvTree { tree: b }, KvTree { tree: c }))
}

/// Relies on sled::Config::open: opens or creates the store rooted at the
/// given directory.
#[verifier::external_body]
fn kv_open_path(path: &str, cache_bytes: u64) -> (r: Result<KvStore, ChainError>)
    ensures
        r matches Err(e) ==> e == ChainError::StoreFailure,
{
    let config = sled::Config::default().cache_capacity(cache_bytes).mode(
        sled::Mode::LowSpace,
    ).path(path);
    match config.open() {
        Ok(db) => Ok(KvStore { db }),
        Err(_) => Err(ChainError::StoreFailure),
    }
}

/// Relies on sled::Db::open_tree: opens the named keyspace within the store.
/// Its contents are whatever the durable state holds, so nothing is assumed
/// of them.
#[verifier::external_body]
fn kv_open_tree(store: &KvStore, name: &str) -> (r: Result<KvTree, ChainError>)
    ensures
        r matches Err(e) ==> e == ChainError::StoreFailure,
{
    match store.db.open_tree(name.as_bytes()) {
        Ok(tree) => Ok(KvTree { tree }),
        Err(_) => Err(ChainError::StoreFailure),
    }
}

/// Relies on sled::Tree::insert: on success the key maps to the value. On a
/// store failure nothing is assumed of the keyspace.
#[verifier::external_body]
fn kv_insert(t: &mut KvTree, key: &[u8], value: &[u8]) -> (r: Result<(), ChainError>)
    ensures
        r is Ok ==> kv_contents(*final(t)) == kv_contents(*old(t)).insert(key@, value@),
        r matches Err(e) ==> e == ChainError::StoreFailure,
{
    match t.tree.insert(key, value) {
        Ok(_) => Ok(()),
        Err(_) => Err(ChainError::StoreFailure),
    }
}

/// Relies on sled::Tree::get: returns the value the keyspace holds under the
/// key, or `None` when the key is absent.
#[verifier::external_body]
fn kv_get(t: &KvTree, key: &[u8]) -> (r: Result<Option<Vec<u8>>, ChainError>)
    ensures
        match r {
            Ok(Some(v)) => kv_contents(*t).contains_key(key@) && v@ == kv_contents(*t)[key@],
            Ok(None) => !kv_contents(*t).contains_key(key@),
            Err(e) => e == ChainError::StoreFailure,
        },
{
    match t.tree.get(key) {
        Ok(Some(ivec)) => Ok(Some(ivec.as_ref().to_vec())),
        Ok(None) => Ok(None),
        Err(_) => Err(ChainError::StoreFailure),
    }
}

/// Relies on sled::Tree::contains_key: whether the keyspace holds the key.
#[verifier::external_body]
fn kv_contains(t: &KvTree, key: &[u8]) -> (r: Result<bool, ChainError>)
    ensures
        match r {
            Ok(b) => b == kv_contents(*t).contains_key(key@),
            Err(e) => e == ChainError::StoreFailure,
        },
{
    match t.tree.contains_key(key) {
        Ok(b) => Ok(b),
        Err(_) => Err(ChainError::StoreFailure),
    }
}

/// Relies on sled::Tree::last: the pair under the lexicographically greatest
/// key, or `None` when the keyspace is empty.
#[verifier::external_body]
fn kv_last(t: &KvTree) -> (r: Result<Option<(Vec<u8>, Vec<u8>)>, ChainError>)
    ensures
        match r {
            Ok(Some((k, v))) => kv_contents(*t).contains_key(k@) && v@ == kv_contents(*t)[k@]
                && forall|k2: Seq<u8>| kv_contents(*t).contains_key(k2) ==> lex_le(k2, k@),
            Ok(None) => forall|k2: Seq<u8>| !kv_contents(*t).contains_key(k2),
            Err(e) => e == ChainError::StoreFailure,
        },
{
    match t.tree.last() {
        Ok(Some((k, v))) => Ok(Some((k.as_ref().to_vec(), v.as_ref().to_vec()))),
        Ok(None) => Ok(None),
        Err(_) => Err(ChainError::StoreFailure),
    }
}

/// The durable header index service, mirroring the in-memory semantics on
/// disk across the three keyspaces.
pub struct SledState {
    by_hash: KvTree,
    by_height: KvTree,
    hash_height: KvTree,
}

impl SledState {
    /// The by-hash keyspace: hash bytes → serialized header.
    pub closed spec fn spec_by_hash(&self) -> KvTree {
        self.by_hash
    }

    /// The by-height keyspace: big-endian height → serialized header.
    pub closed spec fn spec_by_height(&self) -> KvTree {
        self.by_height
    }

    /// The hash-to-height keyspace: hash bytes → big-endian height.
    pub closed spec fn spec_hash_height(&self) -> KvTree {
        self.hash_height
    }

    /// Opens the store described by the configuration and its three
    /// keyspaces; an ephemeral store is created fresh, so its keyspaces
    /// start empty. Unlike the in-memory service this can fail, and the
    /// failure is returned rather than panicking.
    pub fn new(config: &Config) -> (r: Result<SledState, ChainError>)
        ensures
            config.ephemeral ==> (r matches Ok(s) ==> kv_contents(s.spec_by_hash()) == Map::<
                Seq<u8>,
                Seq<u8>,
            >::empty() && kv_contents(s.spec_by_height()) == Map::<Seq<u8>, Seq<u8>>::empty()
                && kv_contents(s.spec_hash_height()) == Map::<Seq<u8>, Seq<u8>>::empty()),
            r matches Err(e) ==> e == ChainError::StoreFailure,
    {
        if config.ephemeral {
            let (by_hash, by_height, hash_height) = kv_open_temporary_trees(
                config.memory_cache_bytes,
            )?;
            Ok(SledState { by_hash, by_height, hash_height })
        } else {
            let store = kv_open_path(config.cache_dir.as_str(), config.memory_cache_bytes)?;
            let by_hash = kv_open_tree(&store, "by_hash")?;
            let by_height = kv_open_tree(&store, "by_height")?;
            let hash_height = kv_open_tree(&store, "hash_height")?;
            Ok(SledState { by_hash, by_height, hash_height })
        }
    }

    /// Serializes the header and writes it under all three keys, after
    /// rejecting duplicate hashes and heights — in that order, with the
    /// store untouched. A success means every keyspace took its record.
    pub fn insert(&mut self, block_header: BlockHeader, block_height: BlockHeight) -> (r: Result<
        (BlockHeaderHash, BlockHeight),
        ChainError,
    >)
        ensures
            match r {
                Ok((hash, height)) => hash@ == hash_of_header(block_header@) && height
                    == block_height && !kv_contents(old(self).spec_by_hash()).contains_key(
                    hash_of_header(block_header@),
                ) && !kv_contents(old(self).spec_by_height()).contains_key(
                    u32_be_bytes(block_height.0),
                ) && kv_contents(final(self).spec_by_hash()) == kv_contents(
                    old(self).spec_by_hash(),
                ).insert(hash_of_header(block_header@), spec_serialize(block_header@))
                    && kv_contents(final(self).spec_by_height()) == kv_contents(
                    old(self).spec_by_height(),
                ).insert(u32_be_bytes(block_height.0), spec_serialize(block_header@))
                    && kv_contents(final(self).spec_hash_height()) == kv_contents(
                    old(self).spec_hash_height(),
                ).insert(hash_of_header(block_header@), u32_be_bytes(block_height.0)),
                Err(ChainError::DuplicateHash) => kv_contents(
                    old(self).spec_by_hash(),
                ).contains_key(hash_of_header(block_header@)) && *final(self) == *old(self),
                Err(ChainError::DuplicateHeight) => !kv_contents(
                    old(self).spec_by_hash(),
                ).contains_key(hash_of_header(block_header@)) && kv_contents(
                    old(self).spec_by_height(),
                ).contains_key(u32_be_bytes(block_height.0)) && *final(self) == *old(self),
                Err(ChainError::StoreFailure) => true,
                Err(_) => false,
            },
            kv_contents(old(self).spec_by_hash()).contains_key(hash_of_header(block_header@))
                ==> *final(self) == *old(self) && (r == Err::<
                (BlockHeaderHash, BlockHeight),
                ChainError,
            >(ChainError::DuplicateHash) || r == Err::<(BlockHeaderHash, BlockHeight), ChainError>(
                ChainError::StoreFailure,
            )),
            !kv_contents(old(self).spec_by_hash()).contains_key(hash_of_header(block_header@))
                && kv_contents(old(self).spec_by_height()).contains_key(
                u32_be_bytes(block_height.0),
            ) ==> *final(self) == *old(self) && (r == Err::<
                (BlockHeaderHash, BlockHeight),
                ChainError,
            >(ChainError::DuplicateHeight) || r == Err::<
                (BlockHeaderHash, BlockHeight),
                ChainError,
            >(ChainError::StoreFailure)),
    {
        let hash = block_header.hash();
        let bytes = serialize_header(&block_header);
        if kv_contains(&self.by_hash, &hash.0)? {
            return Err(ChainError::DuplicateHash);
        }
        let height_key = height_to_be_bytes(block_height.0);
        if kv_contains(&self.by_height, &height_key)? {
            return Err(ChainError::DuplicateHeight);
        }
        // The store has no usable multi-keyspace transaction here, so the
        // writes are ordered: the by-hash record lands last, and presence
        // checks go through by-hash, so a record read back as present has
        // its companion records written.
        kv_insert(&mut self.hash_height, &hash.0, &height_key)?;
        kv_insert(&mut self.by_height, &height_key, bytes.as_slice())?;
        kv_insert(&mut self.by_hash, &hash.0, bytes.as_slice())?;
        Ok((hash, block_height))
    }

    /// Reads and decodes the header stored under the query's key.
    pub fn get(&self, query: QueryType) -> (r: Result<Option<BlockHeader>, ChainError>)
        ensures
            ({
                let (c, key) = match query {
                    QueryType::ByHash(h) => (kv_contents(self.spec_by_hash()), h@),
                    QueryType::ByHeight(n) => (
                        kv_contents(self.spec_by_height()),
                        u32_be_bytes(n.0),
                    ),
                };
                match r {
                    Ok(Some(hd)) => c.contains_key(key) && spec_parse(c[key]) == Some(hd@),
                    Ok(None) => !c.contains_key(key),
                    Err(ChainError::CorruptRecord) => c.contains_key(key) && spec_parse(c[key])
                        is None,
                    Err(ChainError::StoreFailure) => true,
                    Err(_) => false,
                }
            }),
    {
        let value = match query {
            QueryType::ByHash(hash) => kv_get(&self.by_hash, &hash.0)?,
            QueryType::ByHeight(height) => {
                let key = height_to_be_bytes(height.0);
                kv_get(&self.by_height, &key)?
            },
        };
        match value {
            Some(bytes) => match deserialize_header(bytes.as_slice()) {
                Ok(header) => Ok(Some(header)),
                Err(_) => Err(ChainError::CorruptRecord),
            },
            None => Ok(None),
        }
    }

    /// Scans the by-height keyspace for its last — numerically greatest —
    /// key and decodes the header stored there. One store lookup per call,
    /// so the tip always reflects durable state.
    pub fn get_tip(&self) -> (r: Result<
        Option<(BlockHeader, BlockHeaderHash, BlockHeight)>,
        ChainError,
    >)
        ensures
            ({
                let c = kv_contents(self.spec_by_height());
                match r {
                    Ok(Some((hd, hs, ht))) => c.contains_key(u32_be_bytes(ht.0)) && spec_parse(
                        c[u32_be_bytes(ht.0)],
                    ) == Some(hd@) && hs@ == hash_of_header(hd@) && forall|n: u32|
                        c.contains_key(u32_be_bytes(n)) ==> n <= ht.0,
                    Ok(None) => forall|k: Seq<u8>| !c.contains_key(k),
                    Err(ChainError::CorruptRecord) => malformed_height_record(c),
                    Err(ChainError::StoreFailure) => true,
                    Err(_) => false,
                }
            }),
    {
        match kv_last(&self.by_height)? {
            None => Ok(None),
            Some((key, value)) => {
                if key.len() != 4 {
                    return Err(ChainError::CorruptRecord);
                }
                let height = BlockHeight(height_from_be_bytes(key.as_slice()));
                proof {
                    lemma_u32_be_bytes_of_from(key@);
                }
                match deserialize_header(value.as_slice()) {
                    Err(_) => Err(ChainError::CorruptRecord),
                    Ok(header) => {
                        let hash = header.hash();
                        proof {
                            assert forall|n: u32|
                                kv_contents(self.spec_by_height()).contains_key(
                                    u32_be_bytes(n),
                                ) implies n <= height.0 by {
                                lemma_be_lex_is_numeric(n, height.0);
                            }
                        }
                        Ok(Some((header, hash, height)))
                    },
                }
            },
        }
    }

    /// Looks the height of a hash up in the hash-to-height keyspace.
    pub fn get_height(&self, hash: BlockHeaderHash) -> (r: Result<Option<BlockHeight>, ChainError>)
        ensures
            ({
                let c = kv_contents(self.spec_hash_height());
                match r {
                    Ok(Some(ht)) => c.contains_key(hash@) && c[hash@] == u32_be_bytes(ht.0),
                    Ok(None) => !c.contains_key(hash@),
                    Err(ChainError::CorruptRecord) => c.contains_key(hash@) && c[hash@].len() != 4,
                    Err(ChainError::StoreFailure) => true,
                    Err(_) => false,
                }
            }),
    {
        match kv_get(&self.hash_height, &hash.0)? {
            Some(value) => {
                if value.len() != 4 {
                    return Err(ChainError::CorruptRecord);
                }
                let height = height_from_be_bytes(value.as_slice());
                proof {
                    lemma_u32_be_bytes_of_from(value@);
                }
                Ok(Some(BlockHeight(height)))
            },
            None => Ok(None),
        }
    }

    /// Whether the by-hash keyspace holds the hash.
    pub fn contains(&self, hash: &BlockHeaderHash) -> (r: Result<bool, ChainError>)
        ensures
            match r {
                Ok(b) => b == kv_contents(self.spec_by_hash()).contains_key(hash@),
                Err(ChainError::StoreFailure) => true,
                Err(_) => false,
            },
    {
        kv_contains(&self.by_hash, &hash.0)
    }

    /// Handles one request against the durable index, with the same request
    /// surface and failure taxonomy as the in-memory service. An
    /// inconsistency among the keyspaces — a present hash without a height,
    /// a tip below an indexed entry — surfaces as `CorruptRecord`, never a
    /// panic.
    pub fn call(&mut self, req: RequestBlockHeader) -> (r: Result<Response, ChainError>)
        ensures
            match req {
                RequestBlockHeader::AddBlockHeader { block_header, block_height } => match r {
                    Ok(resp) => resp matches Response::Added { hash, height } && hash@
                        == hash_of_header(block_header@) && height == block_height && kv_contents(
                        final(self).spec_by_hash(),
                    ) == kv_contents(old(self).spec_by_hash()).insert(
                        hash_of_header(block_header@),
                        spec_serialize(block_header@),
                    ),
                    Err(ChainError::DuplicateHash) => kv_contents(
                        old(self).spec_by_hash(),
                    ).contains_key(hash_of_header(block_header@)) && *final(self) == *old(self),
                    Err(ChainError::DuplicateHeight) => kv_contents(
                        old(self).spec_by_height(),
                    ).contains_key(u32_be_bytes(block_height.0)) && *final(self) == *old(self),
                    Err(ChainError::StoreFailure) => true,
                    Err(_) => false,
                },
                RequestBlockHeader::GetBlockHeader { query } => *final(self) == *old(self)
                    && ({
                    let (c, key) = match query {
                        QueryType::ByHash(h) => (kv_contents(old(self).spec_by_hash()), h@),
                        QueryType::ByHeight(n) => (
                            kv_contents(old(self).spec_by_height()),
                            u32_be_bytes(n.0),
                        ),
                    };
                    match r {
                        Ok(resp) => (resp matches Response::BlockHeader { block_header, block_height }
                            && c.contains_key(key) && spec_parse(c[key]) == Some(block_header@)
                            && kv_contents(old(self).spec_hash_height()).contains_key(
                            hash_of_header(block_header@),
                        ) && kv_contents(old(self).spec_hash_height())[hash_of_header(
                            block_header@,
                        )] == u32_be_bytes(block_height.0)),
                        Err(ChainError::NotFound) => !c.contains_key(key),
                        Err(ChainError::CorruptRecord) => c.contains_key(key) && (match spec_parse(
                            c[key],
                        ) {
                            None => true,
                            Some(hv) => !kv_contents(old(self).spec_hash_height()).contains_key(
                                hash_of_header(hv),
                            ) || kv_contents(old(self).spec_hash_height())[hash_of_header(
                                hv,
                            )].len() != 4,
                        }),
                        Err(ChainError::StoreFailure) => true,
                        Err(_) => false,
                    }
                }),
                RequestBlockHeader::GetBlockHeight { hash } => *final(self) == *old(self) && ({
                    let c = kv_contents(old(self).spec_hash_height());
                    match r {
                        Ok(resp) => resp matches Response::BlockHeight { block_height }
                            && c.contains_key(hash@) && c[hash@] == u32_be_bytes(block_height.0),
                        Err(ChainError::NotFound) => !c.contains_key(hash@),
                        Err(ChainError::CorruptRecord) => c.contains_key(hash@) && c[hash@].len()
                            != 4,
                        Err(ChainError::StoreFailure) => true,
                        Err(_) => false,
                    }
                }),
                RequestBlockHeader::GetTip => *final(self) == *old(self) && ({
                    let c = kv_contents(old(self).spec_by_height());
                    match r {
                        Ok(resp) => (resp matches Response::Tip { hash, height } && c.contains_key(
                            u32_be_bytes(height.0),
                        ) && (forall|n: u32| c.contains_key(u32_be_bytes(n)) ==> n <= height.0)
                            && (exists|hv: crate::header::HeaderView|
                            spec_parse(c[u32_be_bytes(height.0)]) == Some(hv) && hash@
                                == hash_of_header(hv))),
                        Err(ChainError::NotFound) => forall|k: Seq<u8>| !c.contains_key(k),
                        Err(ChainError::CorruptRecord) => malformed_height_record(c),
                        Err(ChainError::StoreFailure) => true,
                        Err(_) => false,
                    }
                }),
                RequestBlockHeader::GetDepth { hash } => *final(self) == *old(self) && match r {
                    Ok(resp) => match resp {
                        Response::Depth(None) => !kv_contents(
                            old(self).spec_by_hash(),
                        ).contains_key(hash@),
                        Response::Depth(Some(d)) => ({
                            let hh = kv_contents(old(self).spec_hash_height());
                            let bh = kv_contents(old(self).spec_by_height());
                            &&& kv_contents(old(self).spec_by_hash()).contains_key(hash@)
                            &&& hh.contains_key(hash@)
                            &&& exists|tip: u32|
                                #[trigger] bh.contains_key(u32_be_bytes(tip)) && (forall|n: u32|
                                    bh.contains_key(u32_be_bytes(n)) ==> n <= tip) && hh[hash@]
                                    == u32_be_bytes((tip - d) as u32)
                        }),
                        _ => false,
                    },
                    Err(ChainError::CorruptRecord) => ({
                        let hh = kv_contents(old(self).spec_hash_height());
                        let bh = kv_contents(old(self).spec_by_height());
                        kv_contents(old(self).spec_by_hash()).contains_key(hash@) && {
                            ||| !hh.contains_key(hash@)
                            ||| hh.contains_key(hash@) && hh[hash@].len() != 4
                            ||| malformed_height_record(bh)
                            ||| forall|k: Seq<u8>| !bh.contains_key(k)
                            ||| exists|tip: u32|
                                #[trigger] bh.contains_key(u32_be_bytes(tip)) && (forall|n: u32|
                                    bh.contains_key(u32_be_bytes(n)) ==> n <= tip) && hh.contains_key(
                                    hash@,
                                ) && hh[hash@].len() == 4 && tip < u32_from_be_bytes(hh[hash@])
                        }
                    }),
                    Err(ChainError::StoreFailure) => true,
                    Err(_) => false,
                },
            },
    {
        match req {
            RequestBlockHeader::AddBlockHeader { block_header, block_height } => {
                match self.insert(block_header, block_height) {
                    Ok((hash, height)) => Ok(Response::Added { hash, height }),
                    Err(e) => Err(e),
                }
            },
            RequestBlockHeader::GetBlockHeader { query } => {
                match self.get(query)? {
                    Some(block_header) => {
                        let hash = block_header.hash();
                        match self.get_height(hash)? {
                            Some(height) => Ok(
                                Response::BlockHeader { block_header, block_height: height },
                            ),
                            None => Err(ChainError::CorruptRecord),
                        }
                    },
                    None => Err(ChainError::NotFound),
                }
            },
            RequestBlockHeader::GetBlockHeight { hash } => {
                match self.get_height(hash)? {
                    Some(block_height) => Ok(Response::BlockHeight { block_height }),
                    None => Err(ChainError::NotFound),
                }
            },
            RequestBlockHeader::GetTip => {
                match self.get_tip()? {
                    Some((_header, hash, height)) => Ok(Response::Tip { hash, height }),
                    None => Err(ChainError::NotFound),
                }
            },
            RequestBlockHeader::GetDepth { hash } => {
                if !self.contains(&hash)? {
                    return Ok(Response::Depth(None));
                }
                let block_header_height = match self.get_height(hash)? {
                    Some(h) => h,
                    None => {
                        return Err(ChainError::CorruptRecord);
                    },
                };
                let tip = match self.get_tip()? {
                    Some((_header, _hash, height)) => height,
                    None => {
                        return Err(ChainError::CorruptRecord);
                    },
                };
                if tip.0 < block_header_height.0 {
                    proof {
                        lemma_u32_be_round_trip(block_header_height.0);
                    }
                    return Err(ChainError::CorruptRecord);
                }
                let depth = tip.0 - block_header_height.0;
                Ok(Response::Depth(Some(depth)))
            },
        }
    }
}

impl Service<RequestBlockHeader> for SledState {
    fn ready(&mut self) -> Result<(), ChainError> {
        Ok(())
    }

    fn call(&mut self, req: RequestBlockHeader) -> Result<Response, ChainError> {
        SledState::call(self, req)
    }
}

} // verus!
