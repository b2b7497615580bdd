//! The window of blocks in memory, and the marks put on its cells.
use vstd::prelude::*;
use crate::block::{Block, BlockNumber, BlockState};
use crate::game::GameLevel;
use crate::hashing::CorespaceHash;
use crate::matches::{slot_view, window_view};
use crate::model::{
    each_block, empty_window, first_holds_block, focused, highlight_count, highlighted,
    holds_block, one_block, wants_help, DEFAULT_TOTAL_BLOCKS,
};

verus! {

/// A window without blocks.
pub fn new_window() -> (window: Vec<Option<Block>>)
    ensures
        window_view(window@) == empty_window(),
{
    let mut window: Vec<Option<Block>> = Vec::new();
    let mut i: u32 = 0;
    while i < DEFAULT_TOTAL_BLOCKS
        invariant
            i <= DEFAULT_TOTAL_BLOCKS,
            window@.len() == i,
            forall|j: int| 0 <= j < i ==> window@[j] is None,
        decreases DEFAULT_TOTAL_BLOCKS - i,
    {
        window.push(None);
        i = i + 1;
    }
    assert(window_view(window@) =~= empty_window());
    window
}

/// Marks the cell of slot `index` as the one under the cursor.
pub fn select_at(window: &mut Vec<Option<Block>>, index: usize)
    ensures
        window_view(final(window)@) == one_block(
            window_view(old(window)@),
            index as int,
            |block: BlockState| block.selected(),
        ),
{
    if index < window.len() {
        match &mut window[index] {
            Some(block) => {
                block.selected();
            },
            None => {},
        }
    }
    assert(window_view(window@) =~= one_block(
        window_view(old(window)@),
        index as int,
        |block: BlockState| block.selected(),
    ));
}

/// Takes the cursor's mark off the cell of slot `index`.
pub fn unselect_at(window: &mut Vec<Option<Block>>, index: usize)
    ensures
        window_view(final(window)@) == one_block(
            window_view(old(window)@),
            index as int,
            |block: BlockState| block.unselected(),
        ),
{
    if index < window.len() {
        match &mut window[index] {
            Some(block) => {
                block.unselected();
            },
            None => {},
        }
    }
    assert(window_view(window@) =~= one_block(
        window_view(old(window)@),
        index as int,
        |block: BlockState| block.unselected(),
    ));
}

/// Marks the cell of slot `index` as matched.
pub fn match_at(window: &mut Vec<Option<Block>>, index: usize)
    ensures
        window_view(final(window)@) == one_block(
            window_view(old(window)@),
            index as int,
            |block: BlockState| block.matched(),
        ),
{
    if index < window.len() {
        match &mut window[index] {
            Some(block) => {
                block.matched();
            },
            None => {},
        }
    }
    assert(window_view(window@) =~= one_block(
        window_view(old(window)@),
        index as int,
        |block: BlockState| block.matched(),
    ));
}

/// Marks the cell of slot `index` as part of a wrong match.
pub fn miss_at(window: &mut Vec<Option<Block>>, index: usize)
    ensures
        window_view(final(window)@) == one_block(
            window_view(old(window)@),
            index as int,
            |block: BlockState| block.missed(),
        ),
{
    if index < window.len() {
        match &mut window[index] {
            Some(block) => {
                block.missed();
            },
            None => {},
        }
    }
    assert(window_view(window@) =~= one_block(
        window_view(old(window)@),
        index as int,
        |block: BlockState| block.missed(),
    ));
}

/// Turns the cell of slot `index` over, unless it is being turned already.
pub fn flip_at(window: &mut Vec<Option<Block>>, index: usize)
    ensures
        window_view(final(window)@) == one_block(
            window_view(old(window)@),
            index as int,
            |block: BlockState|
                if block.is_anim_live() {
                    block
                } else {
                    block.flipped()
                },
        ),
{
    if index < window.len() {
        match &mut window[index] {
            Some(block) => {
                if !block.is_anim_live() {
                    block.flipped();
                }
            },
            None => {},
        }
    }
    assert(window_view(window@) =~= one_block(
        window_view(old(window)@),
        index as int,
        |block: BlockState|
            if block.is_anim_live() {
                block
            } else {
                block.flipped()
            },
    ));
}

/// Settles the cell of slot `index` after its animation: a matched cell is
/// disabled, any other loses its passing marks. Tells whether the cell
/// was matched.
pub fn settle_at(window: &mut Vec<Option<Block>>, index: usize) -> (was_matched: bool)
    requires
        index < old(window).len(),
        old(window)[index as int] is Some,
    ensures
        was_matched == old(window)[index as int]->0@.is_matched(),
        window_view(final(window)@) == window_view(old(window)@).update(
            index as int,
            Some(
                if was_matched {
                    old(window)[index as int]->0@.disabled()
                } else {
                    old(window)[index as int]->0@.cleared()
                },
            ),
        ),
{
    let mut was_matched = false;
    match &mut window[index] {
        Some(block) => {
            if block.is_matched() {
                block.disabled();
                was_matched = true;
            } else {
                block.cleared();
            }
        },
        None => {},
    }
    assert(window_view(window@) =~= window_view(old(window)@).update(
        index as int,
        Some(
            if was_matched {
                old(window)[index as int]->0@.disabled()
            } else {
                old(window)[index as int]->0@.cleared()
            },
        ),
    ));
    was_matched
}

/// Selects the cell of slot `cursor` and no other; the others lose their
/// passing marks as well.
pub fn focus_window(window: &mut Vec<Option<Block>>, cursor: usize)
    ensures
        window_view(final(window)@) == focused(window_view(old(window)@), cursor as int),
{
    let ghost before = window_view(window@);
    let mut i: usize = 0;
    while i < window.len()
        invariant
            i <= window.len(),
            window.len() == before.len(),
            forall|j: int| 0 <= j < i ==> slot_view(window@[j]) == focused(before, cursor as int)[j],
            forall|j: int| i <= j < window.len() ==> slot_view(window@[j]) == before[j],
        decreases window.len() - i,
    {
        match &mut window[i] {
            Some(block) => {
                if cursor == i {
                    block.selected();
                } else {
                    block.unselected();
                    block.cleared();
                }
            },
            None => {},
        }
        i = i + 1;
    }
    assert(window_view(window@) =~= focused(before, cursor as int));
}

/// Takes every mark off every cell.
pub fn reset_window(window: &mut Vec<Option<Block>>)
    ensures
        window_view(final(window)@) == each_block(
            window_view(old(window)@),
            |i: int, block: BlockState| block.reset_class(),
        ),
{
    let ghost before = window_view(window@);
    let mut i: usize = 0;
    while i < window.len()
        invariant
            i <= window.len(),
            window.len() == before.len(),
            forall|j: int|
                0 <= j < i ==> slot_view(window@[j]) == each_block(
                    before,
                    |i: int, block: BlockState| block.reset_class(),
                )[j],
            forall|j: int| i <= j < window.len() ==> slot_view(window@[j]) == before[j],
        decreases window.len() - i,
    {
        match &mut window[i] {
            Some(block) => {
                block.reset();
            },
            None => {},
        }
        i = i + 1;
    }
    assert(window_view(window@) =~= each_block(
        before,
        |i: int, block: BlockState| block.reset_class(),
    ));
}

/// Highlights the pattern `hash` and tells how many cells it marked.
pub fn highlight_window(window: &mut Vec<Option<Block>>, hash: CorespaceHash, level: GameLevel) -> (cells:
    u32)
    requires
        old(window).len() <= u32::MAX,
    ensures
        window_view(final(window)@) == highlighted(window_view(old(window)@), hash, level),
        cells == highlight_count(window_view(old(window)@), hash, level),
{
    let ghost before = window_view(window@);
    let ghost marked = |slot: Option<BlockState>| slot is Some && wants_help(slot->0, hash, level);
    let mut cells: u32 = 0;
    let mut i: usize = 0;
    proof {
        reveal(Seq::filter);
        assert(before.take(0) =~= Seq::<Option<BlockState>>::empty());
    }
    while i < window.len()
        invariant
            i <= window.len(),
            window.len() == before.len(),
            window.len() <= u32::MAX,
            cells <= i,
            marked == |slot: Option<BlockState>|
                slot is Some && wants_help(slot->0, hash, level),
            cells == before.take(i as int).filter(marked).len(),
            forall|j: int|
                0 <= j < i ==> slot_view(window@[j]) == highlighted(before, hash, level)[j],
            forall|j: int| i <= j < window.len() ==> slot_view(window@[j]) == before[j],
        decreases window.len() - i,
    {
        proof {
            reveal(Seq::filter);
            assert(before.take(i + 1).drop_last() =~= before.take(i as int));
            assert(before.take(i + 1).last() == before[i as int]);
        }
        match &mut window[i] {
            Some(block) => {
                let found = block.corespace_hash(level);
                if found.0 == hash.0 && found.1 == hash.1 {
                    if block.is_help_available() && !block.is_disabled() {
                        block.help();
                        cells = cells + 1;
                    }
                }
            },
            None => {},
        }
        i = i + 1;
    }
    assert(before.take(i as int) =~= before);
    assert(window_view(window@) =~= highlighted(before, hash, level));
    cells
}

/// Looks for the first slot that holds the block with number `number`.
pub fn find_block_index(window: &Vec<Option<Block>>, number: BlockNumber) -> (found: Option<usize>)
    ensures
        match found {
            Some(index) => first_holds_block(window_view(window@), index as int, number),
            None => forall|i: int| !holds_block(window_view(window@), i, number),
        },
{
    let mut i: usize = 0;
    while i < window.len()
        invariant
            i <= window.len(),
            forall|j: int| 0 <= j < i ==> !holds_block(window_view(window@), j, number),
        decreases window.len() - i,
    {
        match &window[i] {
            Some(block) => {
                if block.block_number == number {
                    return Some(i);
                }
            },
            None => {},
        }
        i = i + 1;
    }
    None
}

} // verus!
