//! The pattern index: how many blocks of the window carry each hash.
//!
//! The index is kept in step with the window as blocks come and go, so that
//! no hash has to be computed again for the whole window on every block.
use vstd::prelude::*;
use vstd::multiset::Multiset;
use vstd::std_specs::cmp::OrdSpec;
use vstd::std_specs::iter::IteratorSpec;
use std::cmp::Ordering;
use std::collections::BTreeMap;
use crate::block::{Block, BlockState};
use crate::game::GameLevel;
use crate::hashing::{key_lt, CorespaceHash};

verus! {

/// For each hash, the number of blocks counted under it. No hash is kept
/// with a count of zero.
pub struct MatchIndex {
    counts: BTreeMap<CorespaceHash, u32>,
}

/// The count that `counts` holds for `hash`: 0 where it holds none.
pub open spec fn count_of(counts: Map<CorespaceHash, u32>, hash: CorespaceHash) -> nat {
    if counts.contains_key(hash) {
        counts[hash] as nat
    } else {
        0
    }
}

/// Whether every hash kept in `counts` has a count above zero.
pub open spec fn no_zero_count(counts: Map<CorespaceHash, u32>) -> bool {
    forall|hash: CorespaceHash| counts.contains_key(hash) ==> 0 < #[trigger] counts[hash]
}

/// The counts as a multiset of hashes. Its size is the sum of the counts.
pub open spec fn as_multiset(counts: Map<CorespaceHash, u32>) -> Multiset<CorespaceHash> {
    Multiset::from_map(counts.map_values(|count: u32| count as nat))
}

/// The sum of the counts.
pub open spec fn total(counts: Map<CorespaceHash, u32>) -> nat
    decreases counts.dom().len(),
{
    if counts.dom().finite() && counts.dom().len() > 0 {
        let hash = counts.dom().choose();
        counts[hash] as nat + total(counts.remove(hash))
    } else {
        0
    }
}

/// `counts` with one more block under `hash`.
pub open spec fn added(counts: Map<CorespaceHash, u32>, hash: CorespaceHash) -> Map<
    CorespaceHash,
    u32,
> {
    counts.insert(hash, (count_of(counts, hash) + 1) as u32)
}

/// `counts` with `n` blocks fewer under `hash`, which leaves the index when
/// its count comes to zero. Where fewer than `n` are counted under `hash`,
/// nothing changes.
pub open spec fn taken(counts: Map<CorespaceHash, u32>, hash: CorespaceHash, n: u32) -> Map<
    CorespaceHash,
    u32,
> {
    if count_of(counts, hash) < n {
        counts
    } else if count_of(counts, hash) == n {
        counts.remove(hash)
    } else {
        counts.insert(hash, (count_of(counts, hash) - n) as u32)
    }
}

/// Whether `hash` is counted more than once, so that a pair can be found.
pub open spec fn above_threshold(counts: Map<CorespaceHash, u32>, hash: CorespaceHash) -> bool {
    count_of(counts, hash) > 1
}

/// Whether `hash` is the last of the hashes counted more than once.
pub open spec fn is_last_above_threshold(
    counts: Map<CorespaceHash, u32>,
    hash: CorespaceHash,
) -> bool {
    &&& above_threshold(counts, hash)
    &&& forall|other: CorespaceHash| #[trigger]
        above_threshold(counts, other) ==> other == hash || key_lt(other, hash)
}

/// The hashes at `level` of the occupied slots of `window`, each as often as
/// it occurs.
pub open spec fn tally(window: Seq<Option<BlockState>>, level: GameLevel) -> Multiset<
    CorespaceHash,
>
    decreases window.len(),
{
    if window.len() == 0 {
        Multiset::empty()
    } else {
        match window.last() {
            Some(block) => tally(window.drop_last(), level).insert(block.hash(level)),
            None => tally(window.drop_last(), level),
        }
    }
}

/// The number of occupied slots of `window`.
pub open spec fn occupied_slots(window: Seq<Option<BlockState>>) -> nat {
    window.filter(|slot: Option<BlockState>| slot is Some).len()
}

/// A slot as a mathematical value.
pub open spec fn slot_view(slot: Option<Block>) -> Option<BlockState> {
    match slot {
        Some(block) => Some(block@),
        None => None,
    }
}

/// A window as a mathematical value.
pub open spec fn window_view(window: Seq<Option<Block>>) -> Seq<Option<BlockState>> {
    window.map_values(|slot: Option<Block>| slot_view(slot))
}

/// The multiset of the counts holds each hash as often as it is counted.
pub proof fn lemma_as_multiset_count(counts: Map<CorespaceHash, u32>, hash: CorespaceHash)
    requires
        counts.dom().finite(),
    ensures
        as_multiset(counts).count(hash) == count_of(counts, hash),
{
    let lifted = counts.map_values(|count: u32| count as nat);
    assert(lifted.dom() =~= counts.dom());
}

/// A multiset that holds one hash only, `n` times, has `n` elements.
proof fn lemma_single_len(hash: CorespaceHash, n: nat)
    ensures
        Multiset::from_map(map![hash => n]).len() == n,
    decreases n,
{
    let whole = Multiset::from_map(map![hash => n]);
    if n == 0 {
        assert(whole =~= Multiset::empty());
    } else {
        let less = Multiset::from_map(map![hash => (n - 1) as nat]);
        lemma_single_len(hash, (n - 1) as nat);
        assert(whole =~= less.insert(hash));
    }
}

/// The counts add up to the size of their multiset.
pub proof fn lemma_total_is_len(counts: Map<CorespaceHash, u32>)
    requires
        counts.dom().finite(),
    ensures
        total(counts) == as_multiset(counts).len(),
    decreases counts.dom().len(),
{
    if counts.dom().len() > 0 {
        let hash = counts.dom().choose();
        let rest = counts.remove(hash);
        let single = Multiset::from_map(map![hash => counts[hash] as nat]);
        lemma_total_is_len(rest);
        lemma_single_len(hash, counts[hash] as nat);
        assert forall|other: CorespaceHash|
            as_multiset(counts).count(other) == as_multiset(rest).add(single).count(other) by {
            lemma_as_multiset_count(counts, other);
            lemma_as_multiset_count(rest, other);
        }
        assert(as_multiset(counts) =~= as_multiset(rest).add(single));
    } else {
        assert forall|other: CorespaceHash| as_multiset(counts).count(other) == 0 by {
            lemma_as_multiset_count(counts, other);
        }
        assert(as_multiset(counts) =~= Multiset::empty());
    }
}

/// Counting a block adds its hash to the multiset of the counts.
pub proof fn lemma_added(counts: Map<CorespaceHash, u32>, hash: CorespaceHash)
    requires
        counts.dom().finite(),
        no_zero_count(counts),
        count_of(counts, hash) < u32::MAX,
    ensures
        added(counts, hash).dom().finite(),
        no_zero_count(added(counts, hash)),
        as_multiset(added(counts, hash)) == as_multiset(counts).insert(hash),
{
    let after = added(counts, hash);
    assert forall|other: CorespaceHash|
        as_multiset(after).count(other) == as_multiset(counts).insert(hash).count(other) by {
        lemma_as_multiset_count(counts, other);
        lemma_as_multiset_count(after, other);
    }
    assert(as_multiset(after) =~= as_multiset(counts).insert(hash));
}

/// Taking one block out removes its hash from the multiset of the counts,
/// if it is there.
pub proof fn lemma_taken_one(counts: Map<CorespaceHash, u32>, hash: CorespaceHash)
    requires
        counts.dom().finite(),
        no_zero_count(counts),
    ensures
        taken(counts, hash, 1).dom().finite(),
        no_zero_count(taken(counts, hash, 1)),
        as_multiset(taken(counts, hash, 1)) == as_multiset(counts).remove(hash),
{
    let after = taken(counts, hash, 1);
    assert forall|other: CorespaceHash|
        as_multiset(after).count(other) == as_multiset(counts).remove(hash).count(other) by {
        lemma_as_multiset_count(counts, other);
        lemma_as_multiset_count(after, other);
    }
    assert(as_multiset(after) =~= as_multiset(counts).remove(hash));
}

/// Taking a pair out removes its hash twice from the multiset of the
/// counts where it is counted twice at least, and changes nothing where it
/// is not.
pub proof fn lemma_taken_pair(counts: Map<CorespaceHash, u32>, hash: CorespaceHash)
    requires
        counts.dom().finite(),
        no_zero_count(counts),
    ensures
        taken(counts, hash, 2).dom().finite(),
        no_zero_count(taken(counts, hash, 2)),
        as_multiset(taken(counts, hash, 2)).subset_of(as_multiset(counts)),
        as_multiset(taken(counts, hash, 2)) == if count_of(counts, hash) >= 2 {
            as_multiset(counts).remove(hash).remove(hash)
        } else {
            as_multiset(counts)
        },
{
    let after = taken(counts, hash, 2);
    let expected = if count_of(counts, hash) >= 2 {
        as_multiset(counts).remove(hash).remove(hash)
    } else {
        as_multiset(counts)
    };
    assert forall|other: CorespaceHash|
        as_multiset(after).count(other) == expected.count(other) && as_multiset(after).count(other)
            <= as_multiset(counts).count(other) by {
        lemma_as_multiset_count(counts, other);
        lemma_as_multiset_count(after, other);
    }
    assert(as_multiset(after) =~= expected);
}

/// Counts that hold no zero are known by their multiset.
pub proof fn lemma_counts_by_multiset(a: Map<CorespaceHash, u32>, b: Map<CorespaceHash, u32>)
    requires
        a.dom().finite(),
        b.dom().finite(),
        no_zero_count(a),
        no_zero_count(b),
        as_multiset(a) == as_multiset(b),
    ensures
        a == b,
{
    assert forall|hash: CorespaceHash| count_of(a, hash) == count_of(b, hash) by {
        lemma_as_multiset_count(a, hash);
        lemma_as_multiset_count(b, hash);
    }
    assert forall|hash: CorespaceHash| a.contains_key(hash) == b.contains_key(hash) by {
        assert(count_of(a, hash) == count_of(b, hash));
        if a.contains_key(hash) {
            assert(0 < a[hash]);
        }
        if b.contains_key(hash) {
            assert(0 < b[hash]);
        }
    }
    assert forall|hash: CorespaceHash| a.contains_key(hash) implies a[hash] == b[hash] by {
        assert(count_of(a, hash) == count_of(b, hash));
    }
    assert(a =~= b);
}

/// A multiset that lies within another is no larger.
pub proof fn lemma_subset_len(inner: Multiset<CorespaceHash>, outer: Multiset<CorespaceHash>)
    requires
        inner.subset_of(outer),
    ensures
        inner.len() <= outer.len(),
{
    assert(outer =~= inner.add(outer.sub(inner))) by {
        assert forall|hash: CorespaceHash|
            outer.count(hash) == inner.add(outer.sub(inner)).count(hash) by {
            assert(inner.count(hash) <= outer.count(hash));
        }
    }
}

/// The hashes of a window are as many as its occupied slots.
pub proof fn lemma_tally_len(window: Seq<Option<BlockState>>, level: GameLevel)
    ensures
        tally(window, level).len() == occupied_slots(window),
        occupied_slots(window) <= window.len(),
    decreases window.len(),
{
    reveal(Seq::filter);
    if window.len() > 0 {
        lemma_tally_len(window.drop_last(), level);
    }
}

/// A block put in front of a window adds its hash to those of the window.
pub proof fn lemma_tally_front(
    block: Option<BlockState>,
    window: Seq<Option<BlockState>>,
    level: GameLevel,
)
    ensures
        tally(seq![block] + window, level) == match block {
            Some(b) => tally(window, level).insert(b.hash(level)),
            None => tally(window, level),
        },
    decreases window.len(),
{
    let whole = seq![block] + window;
    if window.len() == 0 {
        assert(whole.drop_last() =~= Seq::<Option<BlockState>>::empty());
        assert(tally(whole.drop_last(), level) =~= Multiset::empty());
    } else {
        assert(whole.drop_last() =~= seq![block] + window.drop_last());
        assert(whole.last() == window.last());
        lemma_tally_front(block, window.drop_last(), level);
    }
    let expected = match block {
        Some(b) => tally(window, level).insert(b.hash(level)),
        None => tally(window, level),
    };
    assert(tally(whole, level) =~= expected);
}

/// Windows that hold blocks with the same cores in the same slots have the
/// same hashes.
pub proof fn lemma_tally_same_blocks(
    a: Seq<Option<BlockState>>,
    b: Seq<Option<BlockState>>,
    level: GameLevel,
)
    requires
        a.len() == b.len(),
        forall|i: int|
            0 <= i < a.len() ==> match (#[trigger] a[i], b[i]) {
                (Some(x), Some(y)) => x.corespace == y.corespace,
                (None, None) => true,
                _ => false,
            },
    ensures
        tally(a, level) == tally(b, level),
    decreases a.len(),
{
    if a.len() > 0 {
        assert(a[a.len() - 1] == a.last());
        lemma_tally_same_blocks(a.drop_last(), b.drop_last(), level);
    }
}

impl View for MatchIndex {
    type V = Map<CorespaceHash, u32>;

    closed spec fn view(&self) -> Map<CorespaceHash, u32> {
        self.counts@
    }
}

impl MatchIndex {
    /// What holds of every index: it keeps finitely many hashes, none with a
    /// count of zero.
    pub open spec fn wf(&self) -> bool {
        self@.dom().finite() && no_zero_count(self@)
    }

    /// An index that counts nothing.
    pub fn new() -> (index: Self)
        ensures
            index.wf(),
            index@ == Map::<CorespaceHash, u32>::empty(),
    {
        MatchIndex { counts: BTreeMap::new() }
    }

    /// The number of blocks counted under `hash`.
    pub fn count(&self, hash: CorespaceHash) -> (count: u32)
        ensures
            count == count_of(self@, hash),
    {
        match self.counts.get(&hash) {
            Some(count) => *count,
            None => 0,
        }
    }

    /// Counts one more block under `hash`.
    pub fn on_block_inserted(&mut self, hash: CorespaceHash)
        requires
            old(self).wf(),
            count_of(old(self)@, hash) < u32::MAX,
        ensures
            final(self).wf(),
            final(self)@ == added(old(self)@, hash),
            as_multiset(final(self)@) == as_multiset(old(self)@).insert(hash),
    {
        proof {
            lemma_added(self@, hash);
        }
        let count = self.count(hash);
        self.counts.insert(hash, count + 1);
    }

    /// Counts one block fewer under `hash`; nothing changes where none is
    /// counted under it.
    pub fn on_block_evicted(&mut self, hash: CorespaceHash)
        requires
            old(self).wf(),
        ensures
            final(self).wf(),
            final(self)@ == taken(old(self)@, hash, 1),
            as_multiset(final(self)@) == as_multiset(old(self)@).remove(hash),
    {
        proof {
            lemma_taken_one(self@, hash);
        }
        self.take(hash, 1);
    }

    /// Takes the two blocks of a match out of the count of `hash`; nothing
    /// changes where fewer than two are counted under it.
    pub fn on_pair_matched(&mut self, hash: CorespaceHash)
        requires
            old(self).wf(),
        ensures
            final(self).wf(),
            final(self)@ == taken(old(self)@, hash, 2),
            as_multiset(final(self)@).subset_of(as_multiset(old(self)@)),
    {
        proof {
            lemma_taken_pair(self@, hash);
        }
        self.take(hash, 2);
    }

    fn take(&mut self, hash: CorespaceHash, n: u32)
        requires
            0 < n,
        ensures
            final(self)@ == taken(old(self)@, hash, n),
    {
        let count = self.count(hash);
        if count == n {
            self.counts.remove(&hash);
        } else if count > n {
            self.counts.insert(hash, count - n);
        }
    }

    /// Forgets every count.
    pub fn clear(&mut self)
        ensures
            final(self).wf(),
            final(self)@ == Map::<CorespaceHash, u32>::empty(),
    {
        self.counts.clear();
    }

    /// Counts the blocks of `window` anew, by their hashes at `level`.
    pub fn rebuild_for_level(&mut self, level: GameLevel, window: &Vec<Option<Block>>)
        requires
            window.len() < u32::MAX,
        ensures
            final(self).wf(),
            as_multiset(final(self)@) == tally(window_view(window@), level),
    {
        self.counts.clear();
        let ghost cells = window_view(window@);
        let mut i: usize = 0;
        assert(cells.take(0) =~= Seq::<Option<BlockState>>::empty());
        assert(as_multiset(self@) =~= Multiset::empty()) by {
            assert forall|hash: CorespaceHash| as_multiset(self@).count(hash) == 0 by {
                lemma_as_multiset_count(self@, hash);
            }
        }
        while i < window.len()
            invariant
                i <= window.len(),
                window.len() < u32::MAX,
                cells == window_view(window@),
                self.wf(),
                as_multiset(self@) == tally(cells.take(i as int), level),
            decreases window.len() - i,
        {
            proof {
                assert(cells.take(i + 1).drop_last() =~= cells.take(i as int));
                assert(cells.take(i + 1).last() == slot_view(window@[i as int]));
            }
            match &window[i] {
                Some(block) => {
                    let hash = block.corespace_hash(level);
                    proof {
                        lemma_tally_len(cells.take(i as int), level);
                        lemma_as_multiset_count(self@, hash);
                    }
                    self.on_block_inserted(hash);
                },
                None => {},
            }
            i = i + 1;
        }
        assert(cells.take(i as int) =~= cells);
    }

    /// The hashes with their counts, in the order of the hashes.
    pub fn entries(&self) -> (entries: Vec<(CorespaceHash, u32)>)
        ensures
            forall|i: int|
                0 <= i < entries@.len() ==> self@.contains_key(#[trigger] entries@[i].0)
                    && self@[entries@[i].0] == entries@[i].1,
            forall|hash: CorespaceHash|
                self@.contains_key(hash) ==> exists|i: int|
                    0 <= i < entries@.len() && #[trigger] entries@[i].0 == hash,
            forall|i: int, j: int|
                0 <= i < j < entries@.len() ==> key_lt(
                    #[trigger] entries@[i].0,
                    #[trigger] entries@[j].0,
                ),
    {
        let mut entries: Vec<(CorespaceHash, u32)> = Vec::new();
        let walk = self.counts.iter();
        let ghost all = walk.remaining();
        for entry in iter: walk
            invariant
                iter.seq() == all,
                entries@.len() == iter.index(),
                forall|j: int|
                    0 <= j < entries@.len() ==> #[trigger] entries@[j] == (*all[j].0, *all[j].1),
        {
            let (hash, count) = entry;
            entries.push((*hash, *count));
        }
        proof {
            let hashes = all.map_values(|entry: (&CorespaceHash, &u32)| *entry.0);
            vstd::std_specs::btree::axiom_increasing_seq_meaning(hashes);
            assert forall|i: int, j: int| 0 <= i < j < entries@.len() implies key_lt(
                #[trigger] entries@[i].0,
                #[trigger] entries@[j].0,
            ) by {
                assert(hashes[i] == entries@[i].0);
                assert(hashes[j] == entries@[j].0);
                assert(hashes[i].cmp_spec(&hashes[j]) == Ordering::Less);
            }
            assert forall|hash: CorespaceHash| self@.contains_key(hash) implies exists|i: int|
                0 <= i < entries@.len() && #[trigger] entries@[i].0 == hash by {
                assert(all.contains((&hash, &self@[hash])));
                let i = choose|i: int| 0 <= i < all.len() && all[i] == (&hash, &self@[hash]);
                assert(entries@[i].0 == hash);
            }
        }
        entries
    }

    /// The hashes that are counted more than once, in their order.
    pub fn matched_hashes_above_threshold(&self) -> (hashes: Vec<CorespaceHash>)
        ensures
            forall|hash: CorespaceHash|
                hashes@.contains(hash) <==> above_threshold(self@, hash),
            forall|i: int, j: int|
                0 <= i < j < hashes@.len() ==> key_lt(#[trigger] hashes@[i], #[trigger] hashes@[j]),
    {
        let entries = self.entries();
        let mut hashes: Vec<CorespaceHash> = Vec::new();
        let ghost mut origin: Seq<int> = Seq::empty();
        let mut i: usize = 0;
        while i < entries.len()
            invariant
                i <= entries.len(),
                origin.len() == hashes@.len(),
                forall|n: int|
                    0 <= n < hashes@.len() ==> 0 <= #[trigger] origin[n] < i && hashes@[n]
                        == entries@[origin[n]].0 && entries@[origin[n]].1 > 1,
                forall|m: int, n: int|
                    0 <= m < n < hashes@.len() ==> #[trigger] origin[m] < #[trigger] origin[n],
                forall|j: int|
                    0 <= j < i && (#[trigger] entries@[j]).1 > 1 ==> hashes@.contains(
                        entries@[j].0,
                    ),
            decreases entries.len() - i,
        {
            let ghost before = hashes@;
            if entries[i].1 > 1 {
                hashes.push(entries[i].0);
                proof {
                    origin = origin.push(i as int);
                    assert(hashes@[hashes@.len() - 1] == entries@[i as int].0);
                    assert forall|j: int|
                        0 <= j < i + 1 && (#[trigger] entries@[j]).1 > 1 implies hashes@.contains(
                        entries@[j].0,
                    ) by {
                        if j < i {
                            let n = choose|n: int|
                                0 <= n < before.len() && before[n] == entries@[j].0;
                            assert(hashes@[n] == entries@[j].0);
                        }
                    }
                }
            }
            i = i + 1;
        }
        proof {
            assert forall|m: int, n: int| 0 <= m < n < hashes@.len() implies key_lt(
                #[trigger] hashes@[m],
                #[trigger] hashes@[n],
            ) by {
                assert(origin[m] < origin[n]);
                assert(key_lt(entries@[origin[m]].0, entries@[origin[n]].0));
            }
            assert forall|hash: CorespaceHash| hashes@.contains(hash) implies above_threshold(
                self@,
                hash,
            ) by {
                let n = choose|n: int| 0 <= n < hashes@.len() && hashes@[n] == hash;
                assert(self@.contains_key(entries@[origin[n]].0));
            }
            assert forall|hash: CorespaceHash| above_threshold(self@, hash) implies hashes@.contains(
                hash,
            ) by {
                let j = choose|j: int| 0 <= j < entries@.len() && entries@[j].0 == hash;
                assert(self@.contains_key(entries@[j].0));
            }
        }
        hashes
    }

    /// The last of the hashes that are counted more than once, if there is
    /// any.
    pub fn last_above_threshold(&self) -> (last: Option<CorespaceHash>)
        ensures
            match last {
                Some(hash) => is_last_above_threshold(self@, hash),
                None => forall|hash: CorespaceHash| !above_threshold(self@, hash),
            },
    {
        let hashes = self.matched_hashes_above_threshold();
        if hashes.len() == 0 {
            assert forall|hash: CorespaceHash| !above_threshold(self@, hash) by {
                assert(!hashes@.contains(hash));
            }
            None
        } else {
            let hash = hashes[hashes.len() - 1];
            proof {
                assert(hashes@.contains(hash));
                assert forall|other: CorespaceHash| #[trigger]
                    above_threshold(self@, other) implies other == hash || key_lt(other, hash) by {
                    assert(hashes@.contains(other));
                    let n = choose|n: int| 0 <= n < hashes@.len() && hashes@[n] == other;
                    if n < hashes@.len() - 1 {
                        assert(key_lt(hashes@[n], hashes@[hashes@.len() - 1]));
                    }
                }
            }
            Some(hash)
        }
    }
}

} // verus!
