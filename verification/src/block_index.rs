//! The in-process header index: hash → header, height → header and
//! hash → height, kept consistent as one atomic set per insert.
//!
//! An insert of a hash or height that is already present is rejected entirely:
//! no overwrite, no partial write. The tip is the entry at the maximum height;
//! depth is the distance from an indexed hash to the tip.

use vstd::prelude::*;

use crate::error::ChainError;
use crate::header::{
    hash_of_header, BlockHeader, BlockHeaderHash, BlockHeight, HeaderView,
};
use crate::state::QueryType;

verus! {

/// The mathematical model of one index entry.
pub ghost struct EntryView {
    /// The header's identity hash.
    pub hash: Seq<u8>,
    /// The chain position the header occupies.
    pub height: u32,
    /// The header itself.
    pub header: HeaderView,
}

struct Entry {
    hash: BlockHeaderHash,
    height: BlockHeight,
    header: BlockHeader,
}

/// No two entries share a hash, and no two entries share a height.
pub open spec fn distinct_keys(s: Seq<EntryView>) -> bool {
    forall|i: int, j: int|
        0 <= i < j < s.len() ==> s[i].hash != s[j].hash && s[i].height != s[j].height
}

/// Every entry's hash is the identity hash of its header, and every header is
/// well-formed.
pub open spec fn hashes_consistent(s: Seq<EntryView>) -> bool {
    forall|i: int|
        0 <= i < s.len() ==> (#[trigger] s[i]).hash == hash_of_header(s[i].header)
            && s[i].header.wf()
}

/// The index invariant: distinct keys and consistent identity hashes.
pub open spec fn index_wf(s: Seq<EntryView>) -> bool {
    distinct_keys(s) && hashes_consistent(s)
}

/// Whether some entry carries the given hash.
pub open spec fn has_hash(s: Seq<EntryView>, h: Seq<u8>) -> bool {
    exists|i: int| 0 <= i < s.len() && (#[trigger] s[i]).hash == h
}

/// Whether some entry occupies the given height.
pub open spec fn has_height(s: Seq<EntryView>, n: u32) -> bool {
    exists|i: int| 0 <= i < s.len() && (#[trigger] s[i]).height == n
}

/// The first entry carrying the given hash, if any.
pub open spec fn find_by_hash(s: Seq<EntryView>, h: Seq<u8>) -> Option<EntryView>
    decreases s.len(),
{
    if s.len() == 0 {
        None
    } else if s[0].hash == h {
        Some(s[0])
    } else {
        find_by_hash(s.drop_first(), h)
    }
}

/// The first entry occupying the given height, if any.
pub open spec fn find_by_height(s: Seq<EntryView>, n: u32) -> Option<EntryView>
    decreases s.len(),
{
    if s.len() == 0 {
        None
    } else if s[0].height == n {
        Some(s[0])
    } else {
        find_by_height(s.drop_first(), n)
    }
}

/// The entry at the maximum height, if the sequence is non-empty. Among equal
/// heights the earlier entry wins, but a well-formed index has no equal
/// heights.
pub open spec fn tip_of(s: Seq<EntryView>) -> Option<EntryView>
    decreases s.len(),
{
    if s.len() == 0 {
        None
    } else {
        match tip_of(s.drop_last()) {
            None => Some(s.last()),
            Some(t) => if s.last().height > t.height {
                Some(s.last())
            } else {
                Some(t)
            },
        }
    }
}

/// The outcome of inserting a header at a height: duplicate hashes and
/// heights are rejected with the index unchanged, checked in that order;
/// otherwise the new entry is appended.
pub open spec fn spec_insert(s: Seq<EntryView>, header: HeaderView, height: u32) -> Result<
    Seq<EntryView>,
    ChainError,
> {
    if has_hash(s, hash_of_header(header)) {
        Err(ChainError::DuplicateHash)
    } else if has_height(s, height) {
        Err(ChainError::DuplicateHeight)
    } else {
        Ok(s.push(EntryView { hash: hash_of_header(header), height, header }))
    }
}

/// `find_by_hash` answers exactly `has_hash`, and a found entry is an entry of
/// the sequence carrying the hash.
pub proof fn lemma_find_by_hash(s: Seq<EntryView>, h: Seq<u8>)
    ensures
        find_by_hash(s, h) is Some <==> has_hash(s, h),
        find_by_hash(s, h) matches Some(e) ==> e.hash == h && exists|i: int|
            0 <= i < s.len() && s[i] == e,
    decreases s.len(),
{
    if s.len() > 0 {
        lemma_find_by_hash(s.drop_first(), h);
        if s[0].hash == h {
            assert(s[0] == s[0]);
        } else {
            if has_hash(s, h) {
                let i = choose|i: int| 0 <= i < s.len() && (#[trigger] s[i]).hash == h;
                assert(s.drop_first()[i - 1] == s[i]);
            }
            match find_by_hash(s.drop_first(), h) {
                Some(e) => {
                    let i = choose|i: int| 0 <= i < s.drop_first().len() && s.drop_first()[i] == e;
                    assert(s[i + 1] == e);
                },
                None => {},
            }
        }
    }
}

/// In a sequence with distinct hashes, finding a known entry's hash yields
/// that entry.
pub proof fn lemma_find_by_hash_unique(s: Seq<EntryView>, i: int)
    requires
        distinct_keys(s),
        0 <= i < s.len(),
    ensures
        find_by_hash(s, s[i].hash) == Some(s[i]),
    decreases s.len(),
{
    if i > 0 {
        assert(s[0].hash != s[i].hash);
        assert(distinct_keys(s.drop_first())) by {
            assert forall|p: int, q: int| 0 <= p < q < s.drop_first().len() implies s.drop_first()[p].hash
                != s.drop_first()[q].hash && s.drop_first()[p].height != s.drop_first()[q].height by {
                assert(s.drop_first()[p] == s[p + 1] && s.drop_first()[q] == s[q + 1]);
            }
        }
        lemma_find_by_hash_unique(s.drop_first(), i - 1);
        assert(s.drop_first()[i - 1] == s[i]);
    }
}

/// `find_by_height` answers exactly `has_height`, and a found entry is an
/// entry of the sequence occupying the height.
pub proof fn lemma_find_by_height(s: Seq<EntryView>, n: u32)
    ensures
        find_by_height(s, n) is Some <==> has_height(s, n),
        find_by_height(s, n) matches Some(e) ==> e.height == n && exists|i: int|
            0 <= i < s.len() && s[i] == e,
    decreases s.len(),
{
    if s.len() > 0 {
        lemma_find_by_height(s.drop_first(), n);
        if s[0].height == n {
            assert(s[0] == s[0]);
        } else {
            if has_height(s, n) {
                let i = choose|i: int| 0 <= i < s.len() && (#[trigger] s[i]).height == n;
                assert(s.drop_first()[i - 1] == s[i]);
            }
            match find_by_height(s.drop_first(), n) {
                Some(e) => {
                    let i = choose|i: int| 0 <= i < s.drop_first().len() && s.drop_first()[i] == e;
                    assert(s[i + 1] == e);
                },
                None => {},
            }
        }
    }
}

/// In a sequence with distinct heights, finding a known entry's height yields
/// that entry.
pub proof fn lemma_find_by_height_unique(s: Seq<EntryView>, i: int)
    requires
        distinct_keys(s),
        0 <= i < s.len(),
    ensures
        find_by_height(s, s[i].height) == Some(s[i]),
    decreases s.len(),
{
    if i > 0 {
        assert(s[0].height != s[i].height);
        assert(distinct_keys(s.drop_first())) by {
            assert forall|p: int, q: int| 0 <= p < q < s.drop_first().len() implies s.drop_first()[p].hash
                != s.drop_first()[q].hash && s.drop_first()[p].height != s.drop_first()[q].height by {
                assert(s.drop_first()[p] == s[p + 1] && s.drop_first()[q] == s[q + 1]);
            }
        }
        lemma_find_by_height_unique(s.drop_first(), i - 1);
        assert(s.drop_first()[i - 1] == s[i]);
    }
}

/// The tip exists exactly when the index is non-empty, is itself an entry,
/// and no entry stands above it: the tip reflects the maximum height,
/// regardless of the order in which entries were inserted.
pub proof fn lemma_tip_is_max(s: Seq<EntryView>)
    ensures
        tip_of(s) is Some <==> s.len() > 0,
        tip_of(s) matches Some(t) ==> (exists|i: int| 0 <= i < s.len() && s[i] == t)
            && (forall|i: int| 0 <= i < s.len() ==> (#[trigger] s[i]).height <= t.height),
    decreases s.len(),
{
    if s.len() > 0 {
        lemma_tip_is_max(s.drop_last());
        let t = tip_of(s)->Some_0;
        if s.len() == 1 {
            assert(s[0] == s.last());
        } else {
            let r = tip_of(s.drop_last())->Some_0;
            let ri = choose|i: int| 0 <= i < s.drop_last().len() && s.drop_last()[i] == r;
            assert(s[ri] == r);
            if s.last().height > r.height {
                assert(s[s.len() - 1] == s.last());
            }
            assert forall|i: int| 0 <= i < s.len() implies (#[trigger] s[i]).height <= t.height by {
                if i < s.len() - 1 {
                    assert(s.drop_last()[i] == s[i]);
                }
            }
        }
    }
}

/// In a sequence with distinct heights, an entry at least as high as every
/// entry is the tip.
pub proof fn lemma_tip_unique(s: Seq<EntryView>, i: int)
    requires
        distinct_keys(s),
        0 <= i < s.len(),
        forall|j: int| 0 <= j < s.len() ==> (#[trigger] s[j]).height <= s[i].height,
    ensures
        tip_of(s) == Some(s[i]),
    decreases s.len(),
{
    lemma_tip_is_max(s.drop_last());
    if i == s.len() - 1 {
        if s.len() > 1 {
            let r = tip_of(s.drop_last())->Some_0;
            let ri = choose|j: int| 0 <= j < s.drop_last().len() && s.drop_last()[j] == r;
            assert(s[ri] == r);
            assert(r.height != s[i].height);
        }
    } else {
        assert(distinct_keys(s.drop_last())) by {
            assert forall|p: int, q: int| 0 <= p < q < s.drop_last().len() implies s.drop_last()[p].hash
                != s.drop_last()[q].hash && s.drop_last()[p].height != s.drop_last()[q].height by {
                assert(s.drop_last()[p] == s[p] && s.drop_last()[q] == s[q]);
            }
        }
        assert forall|j: int| 0 <= j < s.drop_last().len() implies (#[trigger] s.drop_last()[j]).height
            <= s.drop_last()[i].height by {
            assert(s.drop_last()[j] == s[j]);
        }
        lemma_tip_unique(s.drop_last(), i);
        assert(s.last() == s[s.len() - 1]);
        assert(s.last().height != s[i].height);
    }
}

/// Appending an entry with a fresh hash leaves it findable, and every other
/// lookup unchanged.
pub proof fn lemma_find_push(s: Seq<EntryView>, e: EntryView)
    ensures
        !has_hash(s, e.hash) ==> find_by_hash(s.push(e), e.hash) == Some(e),
        !has_height(s, e.height) ==> find_by_height(s.push(e), e.height) == Some(e),
        forall|h: Seq<u8>| h != e.hash ==> #[trigger] find_by_hash(s.push(e), h) == find_by_hash(
            s,
            h,
        ),
        forall|n: u32| n != e.height ==> #[trigger] find_by_height(s.push(e), n)
            == find_by_height(s, n),
    decreases s.len(),
{
    if s.len() == 0 {
        assert(s.push(e)[0] == e);
        assert(s.push(e).drop_first() =~= s);
        assert forall|h: Seq<u8>| h != e.hash implies #[trigger] find_by_hash(s.push(e), h)
            == find_by_hash(s, h) by {
            assert(find_by_hash(s, h) is None);
        }
        assert forall|n: u32| n != e.height implies #[trigger] find_by_height(s.push(e), n)
            == find_by_height(s, n) by {
            assert(find_by_height(s, n) is None);
        }
    } else {
        lemma_find_push(s.drop_first(), e);
        assert(s.push(e).drop_first() =~= s.drop_first().push(e));
        assert(s.push(e)[0] == s[0]);
        if !has_hash(s, e.hash) {
            assert(!has_hash(s.drop_first(), e.hash)) by {
                if has_hash(s.drop_first(), e.hash) {
                    let i = choose|i: int|
                        0 <= i < s.drop_first().len() && (#[trigger] s.drop_first()[i]).hash
                            == e.hash;
                    assert(s[i + 1] == s.drop_first()[i]);
                }
            }
            assert(s[0].hash != e.hash);
        }
        if !has_height(s, e.height) {
            assert(!has_height(s.drop_first(), e.height)) by {
                if has_height(s.drop_first(), e.height) {
                    let i = choose|i: int|
                        0 <= i < s.drop_first().len() && (#[trigger] s.drop_first()[i]).height
                            == e.height;
                    assert(s[i + 1] == s.drop_first()[i]);
                }
            }
            assert(s[0].height != e.height);
        }
        assert forall|h: Seq<u8>| h != e.hash implies #[trigger] find_by_hash(s.push(e), h)
            == find_by_hash(s, h) by {
            assert(find_by_hash(s.drop_first().push(e), h) == find_by_hash(s.drop_first(), h));
        }
        assert forall|n: u32| n != e.height implies #[trigger] find_by_height(s.push(e), n)
            == find_by_height(s, n) by {
            assert(find_by_height(s.drop_first().push(e), n) == find_by_height(s.drop_first(), n));
        }
    }
}

/// The tip depends only on which entries the index holds, not on the order
/// in which they were inserted: two indexes with distinct keys holding the
/// same entries have the same tip.
pub proof fn lemma_tip_ignores_insertion_order(s1: Seq<EntryView>, s2: Seq<EntryView>)
    requires
        distinct_keys(s1),
        distinct_keys(s2),
        forall|e: EntryView| s1.contains(e) <==> s2.contains(e),
    ensures
        tip_of(s1) == tip_of(s2),
{
    lemma_tip_is_max(s1);
    lemma_tip_is_max(s2);
    if s1.len() == 0 {
        if s2.len() > 0 {
            assert(s2.contains(s2[0]));
            assert(s1.contains(s2[0]));
        }
    } else {
        let t1 = tip_of(s1)->Some_0;
        let i1 = choose|i: int| 0 <= i < s1.len() && s1[i] == t1;
        assert(s1.contains(t1));
        assert(s2.contains(t1));
        let i2 = choose|i: int| 0 <= i < s2.len() && s2[i] == t1;
        assert forall|j: int| 0 <= j < s2.len() implies (#[trigger] s2[j]).height <= s2[i2].height by {
            assert(s2.contains(s2[j]));
            assert(s1.contains(s2[j]));
            let k = choose|k: int| 0 <= k < s1.len() && s1[k] == s2[j];
            assert(s1[k].height <= t1.height);
        }
        lemma_tip_unique(s2, i2);
    }
}

/// Inserting a second header whose hash or height is already occupied fails
/// with a duplicate-key error and leaves the index unchanged, so every query
/// result for the first header is preserved.
pub proof fn lemma_no_overwrite(
    s: Seq<EntryView>,
    h1: HeaderView,
    n1: u32,
    h2: HeaderView,
    n2: u32,
)
    requires
        spec_insert(s, h1, n1) is Ok,
        hash_of_header(h2) == hash_of_header(h1) || n2 == n1,
    ensures
        ({
            let s1 = spec_insert(s, h1, n1)->Ok_0;
            let e1 = EntryView { hash: hash_of_header(h1), height: n1, header: h1 };
            &&& spec_insert(s1, h2, n2) is Err
            &&& find_by_hash(s1, hash_of_header(h1)) == Some(e1)
            &&& find_by_height(s1, n1) == Some(e1)
        }),
{
    let e1 = EntryView { hash: hash_of_header(h1), height: n1, header: h1 };
    lemma_find_push(s, e1);
    let s1 = s.push(e1);
    assert(s1[s.len() as int] == e1);
    assert(has_hash(s1, hash_of_header(h1)));
    assert(has_height(s1, n1));
}

/// An in-process keyed store of headers, modeled as the sequence of its
/// entries in insertion order.
pub struct BlockIndex {
    entries: Vec<Entry>,
}

impl View for BlockIndex {
    type V = Seq<EntryView>;

    closed spec fn view(&self) -> Seq<EntryView> {
        self.entries@.map_values(
            |e: Entry| EntryView { hash: e.hash@, height: e.height.0, header: e.header@ },
        )
    }
}

impl BlockIndex {
    /// The index invariant, established by `new` and preserved by every
    /// method.
    pub open spec fn inv(&self) -> bool {
        index_wf(self@)
    }

    /// Creates an empty index.
    pub fn new() -> (r: BlockIndex)
        ensures
            r.inv(),
            r@ == Seq::<EntryView>::empty(),
    {
        let r = BlockIndex { entries: Vec::new() };
        proof {
            assert(r@ =~= Seq::<EntryView>::empty());
        }
        r
    }

    fn position_of_hash(&self, hash: &BlockHeaderHash) -> (r: Option<usize>)
        ensures
            match r {
                Some(i) => i < self@.len() && self@[i as int].hash == hash@,
                None => !has_hash(self@, hash@),
            },
    {
        let mut i: usize = 0;
        while i < self.entries.len()
            invariant
                0 <= i <= self.entries@.len(),
                forall|j: int| 0 <= j < i ==> (#[trigger] self@[j]).hash != hash@,
            decreases self.entries@.len() - i,
        {
            if self.entries[i].hash == *hash {
                return Some(i);
            }
            i += 1;
        }
        None
    }

    fn position_of_height(&self, height: &BlockHeight) -> (r: Option<usize>)
        ensures
            match r {
                Some(i) => i < self@.len() && self@[i as int].height == height.0,
                None => !has_height(self@, height.0),
            },
    {
        let mut i: usize = 0;
        while i < self.entries.len()
            invariant
                0 <= i <= self.entries@.len(),
                forall|j: int| 0 <= j < i ==> (#[trigger] self@[j]).height != height.0,
            decreases self.entries@.len() - i,
        {
            if self.entries[i].height.0 == height.0 {
                return Some(i);
            }
            i += 1;
        }
        None
    }

    /// Computes the header's identity hash, rejects hashes and heights that
    /// are already indexed — in that order, with the index unchanged — and
    /// otherwise records the header under all three keys at once.
    pub fn insert(&mut self, block_header: BlockHeader, block_height: BlockHeight) -> (r: Result<
        (BlockHeaderHash, BlockHeight),
        ChainError,
    >)
        requires
            old(self).inv(),
        ensures
            final(self).inv(),
            match spec_insert(old(self)@, block_header@, block_height.0) {
                Ok(s2) => final(self)@ == s2 && (r matches Ok(p) && p.0@ == hash_of_header(
                    block_header@,
                ) && p.1 == block_height),
                Err(e) => final(self)@ == old(self)@ && r == Err::<
                    (BlockHeaderHash, BlockHeight),
                    ChainError,
                >(e),
            },
    {
        let hash = block_header.hash();
        if let Some(_) = self.position_of_hash(&hash) {
            return Err(ChainError::DuplicateHash);
        }
        if let Some(_) = self.position_of_height(&block_height) {
            return Err(ChainError::DuplicateHeight);
        }
        let ghost old_view = self@;
        self.entries.push(Entry { hash, height: block_height, header: block_header });
        proof {
            let e = EntryView {
                hash: hash_of_header(block_header@),
                height: block_height.0,
                header: block_header@,
            };
            assert(self@ =~= old_view.push(e));
            assert forall|i: int, j: int| 0 <= i < j < self@.len() implies (#[trigger] self@[i]).hash
                != (#[trigger] self@[j]).hash && self@[i].height != self@[j].height by {
                if j == self@.len() - 1 {
                    assert(self@[i] == old_view[i]);
                }
            }
        }
        Ok((hash, block_height))
    }

    /// Pure lookup by hash or by height; never mutates, never fails.
    pub fn get(&self, query: QueryType) -> (r: Result<Option<BlockHeader>, ChainError>)
        requires
            self.inv(),
        ensures
            match query {
                QueryType::ByHash(h) => match find_by_hash(self@, h@) {
                    Some(e) => r matches Ok(Some(hd)) && hd@ == e.header,
                    None => r == Ok::<Option<BlockHeader>, ChainError>(None),
                },
                QueryType::ByHeight(n) => match find_by_height(self@, n.0) {
                    Some(e) => r matches Ok(Some(hd)) && hd@ == e.header,
                    None => r == Ok::<Option<BlockHeader>, ChainError>(None),
                },
            },
    {
        match query {
            QueryType::ByHash(hash) => match self.position_of_hash(&hash) {
                Some(i) => {
                    proof {
                        lemma_find_by_hash_unique(self@, i as int);
                    }
                    Ok(Some(self.entries[i].header))
                },
                None => {
                    proof {
                        lemma_find_by_hash(self@, hash@);
                    }
                    Ok(None)
                },
            },
            QueryType::ByHeight(height) => match self.position_of_height(&height) {
                Some(i) => {
                    proof {
                        lemma_find_by_height_unique(self@, i as int);
                    }
                    Ok(Some(self.entries[i].header))
                },
                None => {
                    proof {
                        lemma_find_by_height(self@, height.0);
                    }
                    Ok(None)
                },
            },
        }
    }

    /// Returns the entry at the maximum height; `None` exactly when the index
    /// is empty.
    pub fn get_tip(&self) -> (r: Result<
        Option<(BlockHeader, BlockHeaderHash, BlockHeight)>,
        ChainError,
    >)
        requires
            self.inv(),
        ensures
            match tip_of(self@) {
                Some(t) => r matches Ok(Some(trip)) && trip.0@ == t.header && trip.1@ == t.hash
                    && trip.2.0 == t.height,
                None => r == Ok::<Option<(BlockHeader, BlockHeaderHash, BlockHeight)>, ChainError>(
                    None,
                ) && self@.len() == 0,
            },
    {
        proof {
            lemma_tip_is_max(self@);
        }
        if self.entries.len() == 0 {
            return Ok(None);
        }
        let mut best: usize = 0;
        let mut i: usize = 1;
        while i < self.entries.len()
            invariant
                0 <= best < i <= self.entries@.len(),
                self.entries@.len() == self@.len(),
                forall|j: int|
                    0 <= j < i ==> (#[trigger] self@[j]).height <= self@[best as int].height,
            decreases self.entries@.len() - i,
        {
            if self.entries[i].height.0 > self.entries[best].height.0 {
                best = i;
            }
            i += 1;
        }
        proof {
            lemma_tip_unique(self@, best as int);
        }
        let e = &self.entries[best];
        Ok(Some((e.header, e.hash, e.height)))
    }

    /// Looks the height of a hash up in the hash → height key space.
    pub fn get_height(&self, hash: BlockHeaderHash) -> (r: Result<Option<BlockHeight>, ChainError>)
        requires
            self.inv(),
        ensures
            match find_by_hash(self@, hash@) {
                Some(e) => r matches Ok(Some(ht)) && ht.0 == e.height,
                None => r == Ok::<Option<BlockHeight>, ChainError>(None),
            },
    {
        match self.position_of_hash(&hash) {
            Some(i) => {
                proof {
                    lemma_find_by_hash_unique(self@, i as int);
                }
                Ok(Some(self.entries[i].height))
            },
            None => {
                proof {
                    lemma_find_by_hash(self@, hash@);
                }
                Ok(None)
            },
        }
    }

    /// Whether the given hash is indexed.
    pub fn contains(&self, hash: &BlockHeaderHash) -> (r: Result<bool, ChainError>)
        ensures
            r == Ok::<bool, ChainError>(has_hash(self@, hash@)),
    {
        match self.position_of_hash(hash) {
            Some(_) => Ok(true),
            None => Ok(false),
        }
    }
}

} // verus!
