//! Facts about windows of blocks: how the marks that the game puts on cells
//! bear on the hashes of a window and on the number of its matched cells.
use vstd::prelude::*;
use vstd::multiset::Multiset;
use crate::block::BlockState;
use crate::game::GameLevel;
use crate::hashing::{key_lt, CorespaceHash};
use crate::matches::{
    as_multiset, is_last_above_threshold, lemma_as_multiset_count, lemma_tally_same_blocks,
    no_zero_count, tally,
};
use crate::model::{
    counts_of, each_block, empty_window, first_holds_block, find_block, help_target, one_block,
    retired_cells, DEFAULT_TOTAL_BLOCKS,
};

verus! {

/// Whether slot `i` of `window` holds a matched cell.
pub open spec fn retired_at(window: Seq<Option<BlockState>>, i: int) -> bool {
    window[i] is Some && window[i]->0.is_retired()
}

/// Whether `after` holds the same blocks as `before`, slot by slot, with
/// whatever marks.
pub open spec fn same_blocks(
    before: Seq<Option<BlockState>>,
    after: Seq<Option<BlockState>>,
) -> bool {
    &&& before.len() == after.len()
    &&& forall|i: int|
        0 <= i < before.len() ==> match (#[trigger] before[i], after[i]) {
            (Some(x), Some(y)) => x.same_block(y),
            (None, None) => true,
            _ => false,
        }
}

/// Marks do not change the hashes of a window.
pub proof fn lemma_same_blocks_tally(
    before: Seq<Option<BlockState>>,
    after: Seq<Option<BlockState>>,
    level: GameLevel,
)
    requires
        same_blocks(before, after),
    ensures
        tally(after, level) == tally(before, level),
{
    assert forall|i: int| 0 <= i < before.len() implies match (#[trigger] before[i], after[i]) {
        (Some(x), Some(y)) => x.corespace == y.corespace,
        (None, None) => true,
        _ => false,
    } by {
        assert(match (before[i], after[i]) {
            (Some(x), Some(y)) => x.same_block(y),
            (None, None) => true,
            _ => false,
        });
    }
    lemma_tally_same_blocks(before, after, level);
}

/// A window has no more matched cells than slots.
pub proof fn lemma_retired_bound(window: Seq<Option<BlockState>>)
    ensures
        retired_cells(window) <= window.len(),
{
    window.lemma_filter_len(|slot: Option<BlockState>| slot is Some && slot->0.is_retired());
}

/// A window in which every matched cell of another is matched has as many
/// matched cells at least.
pub proof fn lemma_retired_monotone(
    before: Seq<Option<BlockState>>,
    after: Seq<Option<BlockState>>,
)
    requires
        before.len() == after.len(),
        forall|i: int|
            0 <= i < before.len() && #[trigger] retired_at(before, i) ==> retired_at(after, i),
    ensures
        retired_cells(before) <= retired_cells(after),
    decreases before.len(),
{
    reveal(Seq::filter);
    if before.len() > 0 {
        let last = before.len() - 1;
        assert forall|i: int|
            0 <= i < before.drop_last().len() && #[trigger] retired_at(
                before.drop_last(),
                i,
            ) implies retired_at(after.drop_last(), i) by {
            assert(retired_at(before, i));
        }
        lemma_retired_monotone(before.drop_last(), after.drop_last());
        if retired_at(before, last) {
            assert(retired_at(after, last));
        }
    }
}

/// A window that has, beside every matched cell of another, one matched
/// cell more has one matched cell more at least.
pub proof fn lemma_retired_grows(
    before: Seq<Option<BlockState>>,
    after: Seq<Option<BlockState>>,
    k: int,
)
    requires
        before.len() == after.len(),
        forall|i: int|
            0 <= i < before.len() && #[trigger] retired_at(before, i) ==> retired_at(after, i),
        0 <= k < before.len(),
        !retired_at(before, k),
        retired_at(after, k),
    ensures
        retired_cells(before) + 1 <= retired_cells(after),
    decreases before.len(),
{
    reveal(Seq::filter);
    let last = before.len() - 1;
    assert forall|i: int|
        0 <= i < before.drop_last().len() && #[trigger] retired_at(
            before.drop_last(),
            i,
        ) implies retired_at(after.drop_last(), i) by {
        assert(retired_at(before, i));
    }
    if k == last {
        lemma_retired_monotone(before.drop_last(), after.drop_last());
    } else {
        assert(!retired_at(before.drop_last(), k));
        assert(retired_at(after.drop_last(), k));
        lemma_retired_grows(before.drop_last(), after.drop_last(), k);
        if retired_at(before, last) {
            assert(retired_at(after, last));
        }
    }
}

/// A window without blocks has no hashes and no matched cells.
pub proof fn lemma_empty_window(level: GameLevel)
    ensures
        empty_window().len() == DEFAULT_TOTAL_BLOCKS,
        tally(empty_window(), level) == Multiset::<CorespaceHash>::empty(),
        retired_cells(empty_window()) == 0,
{
    lemma_all_empty(empty_window(), level);
}

/// A window whose slots are all empty has no hashes and no matched cells.
pub proof fn lemma_all_empty(window: Seq<Option<BlockState>>, level: GameLevel)
    requires
        forall|i: int| 0 <= i < window.len() ==> window[i] is None,
    ensures
        tally(window, level) == Multiset::<CorespaceHash>::empty(),
        retired_cells(window) == 0,
    decreases window.len(),
{
    reveal(Seq::filter);
    if window.len() > 0 {
        lemma_all_empty(window.drop_last(), level);
    }
}

/// A window of which no cell is matched has no matched cells.
pub proof fn lemma_none_retired(window: Seq<Option<BlockState>>)
    requires
        forall|i: int| 0 <= i < window.len() ==> !retired_at(window, i),
    ensures
        retired_cells(window) == 0,
    decreases window.len(),
{
    reveal(Seq::filter);
    if window.len() > 0 {
        assert(!retired_at(window, window.len() - 1));
        assert forall|i: int| 0 <= i < window.drop_last().len() implies !retired_at(
            window.drop_last(),
            i,
        ) by {
            assert(!retired_at(window, i));
        }
        lemma_none_retired(window.drop_last());
    }
}

/// The counts taken from the hashes of a window hold those hashes, each as
/// often as the window does, and no zero.
pub proof fn lemma_counts_of(hashes: Multiset<CorespaceHash>)
    requires
        hashes.len() <= u32::MAX,
    ensures
        counts_of(hashes).dom().finite(),
        no_zero_count(counts_of(hashes)),
        as_multiset(counts_of(hashes)) == hashes,
{
    let counts = counts_of(hashes);
    assert(counts.dom() =~= hashes.dom());
    assert forall|hash: CorespaceHash| as_multiset(counts).count(hash) == hashes.count(hash) by {
        lemma_as_multiset_count(counts, hash);
    }
    assert(as_multiset(counts) =~= hashes);
}

/// There is one last hash above the threshold at most.
pub proof fn lemma_last_above_threshold_unique(
    counts: Map<CorespaceHash, u32>,
    a: CorespaceHash,
    b: CorespaceHash,
)
    requires
        is_last_above_threshold(counts, a),
        is_last_above_threshold(counts, b),
    ensures
        a == b,
{
    assert(crate::matches::above_threshold(counts, a));
    assert(crate::matches::above_threshold(counts, b));
    assert(a == b || key_lt(a, b));
    assert(b == a || key_lt(b, a));
}

/// The pattern that help shows is the last hash above the threshold, and
/// there is none where no hash is above the threshold.
pub proof fn lemma_help_target(counts: Map<CorespaceHash, u32>, found: Option<CorespaceHash>)
    requires
        match found {
            Some(hash) => is_last_above_threshold(counts, hash),
            None => forall|hash: CorespaceHash| !crate::matches::above_threshold(counts, hash),
        },
    ensures
        help_target(counts) == found,
{
    match found {
        Some(hash) => {
            let chosen = choose|h: CorespaceHash| is_last_above_threshold(counts, h);
            lemma_last_above_threshold_unique(counts, chosen, hash);
        },
        None => {
            assert forall|hash: CorespaceHash| !is_last_above_threshold(counts, hash) by {
                assert(!crate::matches::above_threshold(counts, hash));
            }
        },
    }
}

/// The first slot that holds a block is the slot that `find_block` gives,
/// and it gives none where no slot holds the block.
pub proof fn lemma_find_block(
    window: Seq<Option<BlockState>>,
    number: crate::block::BlockNumber,
    found: Option<int>,
)
    requires
        match found {
            Some(index) => first_holds_block(window, index, number),
            None => forall|i: int| !crate::model::holds_block(window, i, number),
        },
    ensures
        find_block(window, number) == found,
{
    match found {
        Some(index) => {
            let chosen = choose|i: int| first_holds_block(window, i, number);
            assert(first_holds_block(window, chosen, number));
            if chosen < index {
                assert(!crate::model::holds_block(window, chosen, number));
            }
            if index < chosen {
                assert(!crate::model::holds_block(window, index, number));
            }
        },
        None => {
            assert forall|i: int| !first_holds_block(window, i, number) by {
                assert(!crate::model::holds_block(window, i, number));
            }
        },
    }
}

/// A change to the marks of every block keeps the blocks.
pub proof fn lemma_each_block_same(
    window: Seq<Option<BlockState>>,
    change: spec_fn(int, BlockState) -> BlockState,
)
    requires
        forall|i: int, block: BlockState| #[trigger] change(i, block).same_block(block),
    ensures
        same_blocks(window, each_block(window, change)),
{
    let after = each_block(window, change);
    assert forall|i: int| 0 <= i < window.len() implies match (#[trigger] window[i], after[i]) {
        (Some(x), Some(y)) => x.same_block(y),
        (None, None) => true,
        _ => false,
    } by {
        if window[i] is Some {
            assert(change(i, window[i]->0).same_block(window[i]->0));
        }
    }
}

/// A change to the marks of one block keeps the blocks.
pub proof fn lemma_one_block_same(
    window: Seq<Option<BlockState>>,
    index: int,
    change: spec_fn(BlockState) -> BlockState,
)
    requires
        forall|block: BlockState| #[trigger] change(block).same_block(block),
    ensures
        same_blocks(window, one_block(window, index, change)),
{
    let after = one_block(window, index, change);
    assert forall|i: int| 0 <= i < window.len() implies match (#[trigger] window[i], after[i]) {
        (Some(x), Some(y)) => x.same_block(y),
        (None, None) => true,
        _ => false,
    } by {
        if window[i] is Some {
            assert(change(window[i]->0).same_block(window[i]->0));
        }
    }
}

/// Holding the same blocks carries over from one window to a third.
pub proof fn lemma_same_blocks_transitive(
    a: Seq<Option<BlockState>>,
    b: Seq<Option<BlockState>>,
    c: Seq<Option<BlockState>>,
)
    requires
        same_blocks(a, b),
        same_blocks(b, c),
    ensures
        same_blocks(a, c),
{
    assert forall|i: int| 0 <= i < a.len() implies match (#[trigger] a[i], c[i]) {
        (Some(x), Some(y)) => x.same_block(y),
        (None, None) => true,
        _ => false,
    } by {
        assert(match (a[i], b[i]) {
            (Some(x), Some(y)) => x.same_block(y),
            (None, None) => true,
            _ => false,
        });
        assert(match (b[i], c[i]) {
            (Some(x), Some(y)) => x.same_block(y),
            (None, None) => true,
            _ => false,
        });
    }
}

} // verus!
