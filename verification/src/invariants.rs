//! Every operation of the game takes a well-formed state to a well-formed
//! state.
use vstd::prelude::*;
use vstd::multiset::Multiset;
use crate::block::{BlockNumber, BlockState};
use crate::game::{GameLevel, GameStatus};
use crate::hashing::CorespaceHash;
use crate::keyboard::SupportedKeys;
use crate::matches::{
    added, as_multiset, count_of, lemma_added, lemma_as_multiset_count, lemma_taken_one,
    lemma_taken_pair, lemma_tally_front, lemma_tally_len, tally,
};
use crate::model::{
    each_block, find_block, first_holds_block, focused, help_target, highlighted, index_of, moved,
    next_position, on_grid, one_block, position_of, retired_cells, AppState, Position, PressKind,
    DEFAULT_TOTAL_BLOCKS,
};
use crate::network::SubscriptionId;
use crate::support::SupportedRelayRuntime;
use crate::window::{
    lemma_counts_of, lemma_each_block_same, lemma_empty_window, lemma_none_retired,
    lemma_one_block_same, lemma_retired_bound, lemma_retired_grows, lemma_retired_monotone,
    lemma_same_blocks_tally, lemma_same_blocks_transitive, retired_at, same_blocks,
};

verus! {

/// Whether the marks of `after` are those of `before` or more: the blocks
/// are the same and every matched cell is still matched.
pub open spec fn marks_kept(
    before: Seq<Option<BlockState>>,
    after: Seq<Option<BlockState>>,
) -> bool {
    &&& same_blocks(before, after)
    &&& forall|i: int|
        0 <= i < before.len() && #[trigger] retired_at(before, i) ==> retired_at(after, i)
}

/// A state that differs from a well-formed one in marks, cursor and
/// reference cell only is well-formed if those lie on the board.
pub proof fn lemma_marks_keep_wf(before: AppState, after: AppState)
    requires
        before.wf(),
        marks_kept(before.blocks, after.blocks),
        after.matches == before.matches,
        after.game_level == before.game_level,
        after.match_counter <= before.match_counter,
        on_grid(after.cursor_position),
        after.match_position matches Some(position) ==> on_grid(position),
    ensures
        after.wf(),
        before.index_is_exact() ==> after.index_is_exact(),
{
    lemma_same_blocks_tally(before.blocks, after.blocks, before.game_level);
    lemma_retired_monotone(before.blocks, after.blocks);
}

/// Keeping marks carries over from one window to a third.
pub proof fn lemma_marks_kept_transitive(
    a: Seq<Option<BlockState>>,
    b: Seq<Option<BlockState>>,
    c: Seq<Option<BlockState>>,
)
    requires
        marks_kept(a, b),
        marks_kept(b, c),
    ensures
        marks_kept(a, c),
{
    lemma_same_blocks_transitive(a, b, c);
    assert forall|i: int| 0 <= i < a.len() && #[trigger] retired_at(a, i) implies retired_at(
        c,
        i,
    ) by {
        assert(retired_at(b, i));
    }
}

/// A change to one block that keeps the block and leaves a matched cell
/// matched keeps the marks of the window.
pub proof fn lemma_one_block_keeps_marks(
    window: Seq<Option<BlockState>>,
    index: int,
    change: spec_fn(BlockState) -> BlockState,
)
    requires
        forall|block: BlockState| #[trigger] change(block).same_block(block),
        forall|block: BlockState| block.is_retired() ==> #[trigger] change(block).is_retired(),
    ensures
        marks_kept(window, one_block(window, index, change)),
{
    lemma_one_block_same(window, index, change);
    let after = one_block(window, index, change);
    assert forall|i: int| 0 <= i < window.len() && #[trigger] retired_at(
        window,
        i,
    ) implies retired_at(after, i) by {
        if i == index {
            assert(change(window[i]->0).is_retired());
        }
    }
}

/// A change to every block that keeps the block and leaves a matched cell
/// matched keeps the marks of the window.
pub proof fn lemma_each_block_keeps_marks(
    window: Seq<Option<BlockState>>,
    change: spec_fn(int, BlockState) -> BlockState,
)
    requires
        forall|i: int, block: BlockState| #[trigger] change(i, block).same_block(block),
        forall|i: int, block: BlockState|
            block.is_retired() ==> #[trigger] change(i, block).is_retired(),
    ensures
        marks_kept(window, each_block(window, change)),
{
    lemma_each_block_same(window, change);
    let after = each_block(window, change);
    assert forall|i: int| 0 <= i < window.len() && #[trigger] retired_at(
        window,
        i,
    ) implies retired_at(after, i) by {
        assert(change(i, window[i]->0).is_retired());
    }
}

/// A slot of the board has its place on the board, and the place has the
/// slot.
pub proof fn lemma_position_of(index: int)
    requires
        0 <= index < DEFAULT_TOTAL_BLOCKS,
    ensures
        on_grid(position_of(index)),
        index_of(position_of(index)) == index,
{
}

/// The state in which the game begins is well-formed, and its index is
/// exact.
pub proof fn lemma_initial_wf(runtime: SupportedRelayRuntime)
    ensures
        AppState::initial(runtime).wf(),
        AppState::initial(runtime).index_is_exact(),
{
    let s = AppState::initial(runtime);
    lemma_empty_window(s.game_level);
    assert(as_multiset(s.matches) =~= Multiset::<CorespaceHash>::empty()) by {
        assert forall|hash: CorespaceHash| as_multiset(s.matches).count(hash) == 0 by {
            lemma_as_multiset_count(s.matches, hash);
        }
    }
}

/// Counting the index anew makes it exact, and the state well-formed if
/// the rest of it is.
pub proof fn lemma_reindexed_wf(s: AppState)
    requires
        s.blocks.len() == DEFAULT_TOTAL_BLOCKS,
        on_grid(s.cursor_position),
        s.match_position matches Some(position) ==> on_grid(position),
        s.match_counter <= retired_cells(s.blocks),
    ensures
        s.reindexed().wf(),
        s.reindexed().index_is_exact(),
{
    lemma_tally_len(s.blocks, s.game_level);
    lemma_counts_of(tally(s.blocks, s.game_level));
}

/// No hash is counted more often than the window has slots.
pub proof fn lemma_count_bound(s: AppState, hash: CorespaceHash)
    requires
        s.wf(),
    ensures
        count_of(s.matches, hash) <= DEFAULT_TOTAL_BLOCKS,
{
    lemma_as_multiset_count(s.matches, hash);
    lemma_tally_len(s.blocks, s.game_level);
    assert(as_multiset(s.matches).count(hash) <= tally(s.blocks, s.game_level).count(hash));
}

/// Taking a block in keeps a state without a match attempt well-formed,
/// and an exact index exact.
pub proof fn lemma_received_wf(s: AppState, block: BlockState)
    requires
        s.wf(),
        s.match_counter == 0,
    ensures
        s.received(block).wf(),
        s.index_is_exact() ==> s.received(block).index_is_exact(),
{
    let level = s.game_level;
    let pushed = seq![Some(block)] + s.blocks;
    let hash = block.hash(level);
    let counted = added(s.matches, hash);
    let after = s.received(block);
    lemma_count_bound(s, hash);
    lemma_added(s.matches, hash);
    lemma_tally_front(Some(block), s.blocks, level);
    assert(tally(pushed, level) == tally(s.blocks, level).insert(hash));
    assert(as_multiset(counted).subset_of(tally(pushed, level)));
    match pushed.last() {
        Some(oldest) => {
            let gone = oldest.hash(level);
            lemma_taken_one(counted, gone);
            assert(tally(pushed, level) == tally(pushed.drop_last(), level).insert(gone));
            assert(tally(pushed.drop_last(), level) =~= tally(pushed, level).remove(gone));
            assert(as_multiset(after.matches).subset_of(tally(after.blocks, level)));
            if s.index_is_exact() {
                assert(as_multiset(after.matches) =~= tally(after.blocks, level));
            }
        },
        None => {
            assert(tally(pushed, level) == tally(pushed.drop_last(), level));
        },
    }
}

/// Selecting the cell under the cursor and no other keeps the marks.
pub proof fn lemma_focused_keeps_marks(window: Seq<Option<BlockState>>, cursor: int)
    ensures
        marks_kept(window, focused(window, cursor)),
{
    lemma_each_block_keeps_marks(
        window,
        |i: int, block: BlockState|
            if i == cursor {
                block.selected()
            } else {
                block.unselected().cleared()
            },
    );
}

/// Highlighting a pattern keeps the marks.
pub proof fn lemma_highlighted_keeps_marks(
    window: Seq<Option<BlockState>>,
    hash: CorespaceHash,
    level: GameLevel,
)
    ensures
        marks_kept(window, highlighted(window, hash, level)),
{
    lemma_each_block_keeps_marks(
        window,
        |i: int, block: BlockState|
            if crate::model::wants_help(block, hash, level) {
                block.help()
            } else {
                block
            },
    );
}

/// A block from the feed keeps the state well-formed, and an exact index
/// exact.
pub proof fn lemma_ingested_wf(s: AppState, id: SubscriptionId, block: BlockState)
    requires
        s.wf(),
    ensures
        s.ingested(id, block).wf(),
        s.index_is_exact() ==> s.ingested(id, block).index_is_exact(),
{
    if s.network_state.is_valid(id) {
        let a = s.reset_match_block();
        assert(a.wf());
        let b = a.received(block);
        lemma_received_wf(a, block);
        let c = b.refocused();
        lemma_focused_keeps_marks(b.blocks, b.cursor_index());
        lemma_marks_keep_wf(b, c);
        let d = c.helped();
        if c.is_game_on() && c.is_help_on() {
            match help_target(c.matches) {
                Some(hash) => {
                    lemma_highlighted_keeps_marks(c.blocks, hash, c.game_level);
                },
                None => {},
            }
        }
        lemma_marks_keep_wf(c, d);
        lemma_marks_keep_wf(d, d.ticked());
    }
}

/// A click keeps the state well-formed, and an exact index exact.
pub proof fn lemma_clicked_wf(s: AppState, index: int)
    requires
        s.wf(),
    ensures
        s.clicked(index).wf(),
        s.index_is_exact() ==> s.clicked(index).index_is_exact(),
{
    if s.is_game_on() && 0 <= index < DEFAULT_TOTAL_BLOCKS {
        let left = if s.cursor_index() != index {
            one_block(s.blocks, s.cursor_index(), |block: BlockState| block.unselected())
        } else {
            s.blocks
        };
        lemma_one_block_keeps_marks(
            s.blocks,
            s.cursor_index(),
            |block: BlockState| block.unselected(),
        );
        lemma_one_block_keeps_marks(left, index, |block: BlockState| block.selected());
        lemma_marks_kept_transitive(s.blocks, left, s.clicked(index).blocks);
        lemma_position_of(index);
        lemma_marks_keep_wf(s, s.clicked(index));
    }
}

/// Sending the cursor to a place keeps the state well-formed, and an
/// exact index exact.
pub proof fn lemma_cursor_moved_wf(s: AppState, position: Position)
    requires
        s.wf(),
    ensures
        s.cursor_moved(position).wf(),
        s.index_is_exact() ==> s.cursor_moved(position).index_is_exact(),
{
    if s.is_game_on() && position != s.cursor_position && on_grid(position) {
        let left = one_block(s.blocks, s.cursor_index(), |block: BlockState| block.unselected());
        lemma_one_block_keeps_marks(
            s.blocks,
            s.cursor_index(),
            |block: BlockState| block.unselected(),
        );
        lemma_one_block_keeps_marks(
            left,
            index_of(position),
            |block: BlockState| block.selected(),
        );
        lemma_marks_kept_transitive(s.blocks, left, s.cursor_moved(position).blocks);
        lemma_marks_keep_wf(s, s.cursor_moved(position));
    }
}

/// An arrow key keeps the cursor on the board.
pub proof fn lemma_moved_on_grid(position: Position, key: SupportedKeys)
    requires
        on_grid(position),
    ensures
        on_grid(moved(position, key)),
        on_grid(next_position(position)),
{
}

/// Moving the cursor on in reading order keeps the state well-formed.
pub proof fn lemma_cursor_advanced_wf(s: AppState)
    requires
        s.wf(),
    ensures
        s.cursor_advanced().wf(),
        s.index_is_exact() ==> s.cursor_advanced().index_is_exact(),
{
    lemma_moved_on_grid(s.cursor_position, SupportedKeys::Up);
}

/// Turning a cell over keeps the state well-formed.
pub proof fn lemma_details_shown_wf(s: AppState)
    requires
        s.wf(),
    ensures
        s.details_shown().wf(),
        s.index_is_exact() ==> s.details_shown().index_is_exact(),
{
    lemma_one_block_keeps_marks(
        s.blocks,
        s.cursor_index(),
        |block: BlockState|
            if block.is_anim_live() {
                block
            } else {
                block.flipped()
            },
    );
    lemma_marks_keep_wf(s, s.details_shown());
}

/// A match keeps the state well-formed.
pub proof fn lemma_matched_wf(s: AppState, index: int)
    requires
        s.wf(),
        s.press_kind(index) is Matched,
    ensures
        s.matched(index).wf(),
        s.match_counter < DEFAULT_TOTAL_BLOCKS,
{
    let level = s.game_level;
    let reference = s.match_index()->0;
    let first = one_block(s.blocks, index, |block: BlockState| block.matched());
    let marked = one_block(first, reference, |block: BlockState| block.matched());
    lemma_one_block_keeps_marks(s.blocks, index, |block: BlockState| block.matched());
    lemma_one_block_keeps_marks(first, reference, |block: BlockState| block.matched());
    lemma_marks_kept_transitive(s.blocks, first, marked);
    lemma_same_blocks_tally(s.blocks, marked, level);
    lemma_taken_pair(s.matches, s.match_block()->0.hash(level));
    assert(!retired_at(s.blocks, index));
    assert(retired_at(first, index));
    assert(retired_at(marked, index));
    lemma_retired_grows(s.blocks, marked, index);
    lemma_retired_bound(marked);
    lemma_retired_bound(s.blocks);
}

/// A wrong match keeps the state well-formed, and an exact index exact.
pub proof fn lemma_missed_wf(s: AppState, index: int)
    requires
        s.wf(),
        s.press_kind(index) is Missed,
    ensures
        s.missed(index).wf(),
        s.index_is_exact() ==> s.missed(index).index_is_exact(),
{
    let reference = s.match_index()->0;
    let first = one_block(s.blocks, index, |block: BlockState| block.missed());
    let marked = one_block(first, reference, |block: BlockState| block.missed());
    let left = one_block(marked, s.cursor_index(), |block: BlockState| block.unselected());
    lemma_one_block_keeps_marks(s.blocks, index, |block: BlockState| block.missed());
    lemma_one_block_keeps_marks(first, reference, |block: BlockState| block.missed());
    lemma_one_block_keeps_marks(marked, s.cursor_index(), |block: BlockState| block.unselected());
    lemma_marks_kept_transitive(s.blocks, first, marked);
    lemma_marks_kept_transitive(s.blocks, marked, left);
    lemma_marks_keep_wf(s, s.missed(index));
}

/// Committing a cell keeps the state well-formed.
pub proof fn lemma_pressed_wf(s: AppState, index: int)
    requires
        s.wf(),
    ensures
        s.pressed(index).wf(),
{
    match s.press_kind(index) {
        PressKind::Matched => {
            lemma_matched_wf(s, index);
        },
        PressKind::Missed => {
            lemma_missed_wf(s, index);
        },
        _ => {},
    }
}

/// The slot that `find_block` gives is a slot of the window that holds
/// the block.
pub proof fn lemma_find_block_holds(window: Seq<Option<BlockState>>, number: BlockNumber)
    ensures
        find_block(window, number) matches Some(index) ==> first_holds_block(
            window,
            index,
            number,
        ),
{
}

/// The end of an animation keeps the state well-formed, and an exact
/// index exact.
pub proof fn lemma_animation_ended_wf(s: AppState, number: BlockNumber)
    requires
        s.wf(),
    ensures
        s.animation_ended(number).wf(),
        s.index_is_exact() ==> s.animation_ended(number).index_is_exact(),
{
    lemma_find_block_holds(s.blocks, number);
    match find_block(s.blocks, number) {
        None => {},
        Some(index) => {
            let block = s.blocks[index]->0;
            if block.is_matched() {
                let settled = AppState {
                    blocks: s.blocks.update(index, Some(block.disabled())),
                    ..s
                };
                assert(settled.blocks =~= one_block(
                    s.blocks,
                    index,
                    |b: BlockState| b.disabled(),
                ));
                lemma_one_block_keeps_marks(s.blocks, index, |b: BlockState| b.disabled());
                lemma_marks_keep_wf(s, settled);
                lemma_marks_keep_wf(s, s.animation_ended(number));
            } else {
                assert(s.animation_ended(number).blocks =~= one_block(
                    s.blocks,
                    index,
                    |b: BlockState| b.cleared(),
                ));
                lemma_one_block_keeps_marks(s.blocks, index, |b: BlockState| b.cleared());
                lemma_marks_keep_wf(s, s.animation_ended(number));
            }
        },
    }
}

/// Going on to a level keeps the state well-formed.
pub proof fn lemma_next_level_wf(s: AppState, level: GameLevel)
    requires
        s.wf(),
    ensures
        s.next_level(level).wf(),
        s.next_level_timeout(level).wf(),
        s.level_chosen(level).wf(),
        s.help_started().wf(),
        s.index_is_exact() ==> s.next_level(level).index_is_exact(),
        s.game_status == GameStatus::MoveTo(level) ==> s.next_level_timeout(level).index_is_exact(),
        s.level_chosen(level).index_is_exact(),
        s.is_game_on() && s.game_help_status is Available ==> s.help_started().index_is_exact(),
        s.index_is_exact() ==> s.help_started().index_is_exact(),
{
    lemma_marks_keep_wf(s, s.next_level(level));
    lemma_reindexed_wf(
        AppState {
            game_level: level,
            game_status: GameStatus::On,
            helps: crate::model::DEFAULT_INITIAL_HELPS,
            game_help_status: crate::game::GameHelpStatus::Available,
            ..s
        },
    );
    lemma_reindexed_wf(AppState { game_level: level, ..s });
    lemma_reindexed_wf(AppState { game_help_status: crate::game::GameHelpStatus::On, ..s });
}

/// Taking the marks off every block leaves no matched cell.
pub proof fn lemma_reset_blocks(window: Seq<Option<BlockState>>)
    ensures
        retired_cells(each_block(window, |i: int, block: BlockState| block.reset_class())) == 0,
        each_block(window, |i: int, block: BlockState| block.reset_class()).len() == window.len(),
{
    let after = each_block(window, |i: int, block: BlockState| block.reset_class());
    assert forall|i: int| 0 <= i < after.len() implies !retired_at(after, i) by {}
    lemma_none_retired(after);
}

/// A reset leaves a well-formed state with an exact index, whether the
/// window is kept or not, and so does the start of a game.
pub proof fn lemma_reset_wf(s: AppState)
    requires
        s.wf(),
    ensures
        s.reset().wf(),
        s.reset().index_is_exact(),
        s.full_reset().wf(),
        s.full_reset().index_is_exact(),
        s.started().wf(),
        !s.is_game_on() ==> s.started().index_is_exact(),
        s.index_is_exact() ==> s.started().index_is_exact(),
{
    lemma_reset_blocks(s.blocks);
    let cleared = AppState {
        blocks: each_block(s.blocks, |i: int, block: BlockState| block.reset_class()),
        game_status: GameStatus::Ready,
        game_level: GameLevel::Level2,
        duration: crate::model::DEFAULT_INITIAL_DURATION,
        points: crate::model::DEFAULT_INITIAL_POINTS,
        previous_points: crate::model::DEFAULT_INITIAL_POINTS,
        tries: crate::model::DEFAULT_INITIAL_TRIES,
        helps: crate::model::DEFAULT_INITIAL_HELPS,
        game_help_status: crate::game::GameHelpStatus::Available,
        cursor_position: (0, 0),
        match_position: None,
        match_counter: 0,
        ..s
    };
    lemma_reindexed_wf(cleared);
    assert(s.reset() == cleared.reindexed());
    let full = s.full_reset();
    lemma_empty_window(full.game_level);
    assert(as_multiset(full.matches) =~= Multiset::<CorespaceHash>::empty()) by {
        assert forall|hash: CorespaceHash| as_multiset(full.matches).count(hash) == 0 by {
            lemma_as_multiset_count(full.matches, hash);
        }
    }
    if !s.is_game_on() {
        let begun = AppState {
            previous_board_status: Some(s.board_status),
            board_status: crate::game::BoardStatus::Game,
            game_status: GameStatus::On,
            game_level: GameLevel::Level1,
            ..s.reset()
        };
        lemma_reindexed_wf(begun);
    }
}

/// What bears on the feed, the board and the accounts alone keeps the
/// state well-formed, and an exact index exact.
pub proof fn lemma_surroundings_wf(s: AppState, runtime: SupportedRelayRuntime, failed: bool)
    requires
        s.wf(),
    ensures
        s.network_changed(runtime).wf(),
        s.info_toggled().wf(),
        s.accounts_loaded().wf(),
        s.account_clicked().wf(),
        s.signing_finished(failed).wf(),
        s.index_is_exact() ==> {
            &&& s.network_changed(runtime).index_is_exact()
            &&& s.info_toggled().index_is_exact()
            &&& s.accounts_loaded().index_is_exact()
            &&& s.account_clicked().index_is_exact()
            &&& s.signing_finished(failed).index_is_exact()
        },
{
}

/// A new subscription leaves a well-formed state with an exact index.
pub proof fn lemma_subscription_created_wf(s: AppState, id: SubscriptionId)
    requires
        s.wf(),
    ensures
        s.subscription_created(id).wf(),
        s.subscription_created(id).index_is_exact(),
{
    let t = AppState {
        network_state: crate::network::NetworkStateView {
            subscription_id: Some(id),
            status: crate::network::NetworkStatus::Active,
            ..s.network_state
        },
        ..s
    };
    lemma_reset_wf(t);
}

/// A key keeps the state well-formed.
pub proof fn lemma_key_pressed_wf(s: AppState, key: SupportedKeys)
    requires
        s.wf(),
    ensures
        s.key_pressed(key).wf(),
{
    lemma_pressed_wf(s, s.cursor_index());
    lemma_reset_wf(s);
    lemma_moved_on_grid(s.cursor_position, key);
    lemma_cursor_moved_wf(s, moved(s.cursor_position, key));
    lemma_next_level_wf(s, GameLevel::Level1);
    lemma_details_shown_wf(s);
}

} // verus!
