//! What holds of the game whatever is played: laws of the window, of the
//! pattern index, of the reference cell, of the score and of the levels.
use vstd::prelude::*;
use crate::app::{App, Msg};
use crate::block::{BlockNumber, BlockState};
use crate::game::{GameLevel, GameStatus};
use crate::invariants::{
    lemma_animation_ended_wf, lemma_clicked_wf, lemma_focused_keeps_marks,
    lemma_highlighted_keeps_marks, lemma_ingested_wf, lemma_key_pressed_wf, lemma_matched_wf,
    lemma_missed_wf, lemma_next_level_wf, lemma_pressed_wf, lemma_reset_wf,
    lemma_subscription_created_wf, lemma_surroundings_wf,
};
use crate::keyboard::SupportedKeys;
use crate::matches::{
    as_multiset, lemma_subset_len, lemma_tally_len, lemma_total_is_len, no_zero_count,
    occupied_slots, tally, total,
};
use crate::model::{
    capped_sum, combo_points, doubled, help_target, index_of, moved, on_grid, position_of, AppState,
    Position, DEFAULT_INITIAL_TRIES, DEFAULT_TOTAL_BLOCKS, GRID_SIZE,
};
use crate::network::SubscriptionId;
use crate::window::same_blocks;

verus! {

/// Whether two slots hold the same block, or are both empty.
pub open spec fn same_slot(a: Option<BlockState>, b: Option<BlockState>) -> bool {
    match (a, b) {
        (Some(x), Some(y)) => x.same_block(y),
        (None, None) => true,
        _ => false,
    }
}

/// The state after the feed has handed over `blocks` one after another
/// under subscription `id`, the first of them first.
pub open spec fn ingested_all(s: AppState, id: SubscriptionId, blocks: Seq<BlockState>) -> AppState
    decreases blocks.len(),
{
    if blocks.len() == 0 {
        s
    } else {
        ingested_all(s, id, blocks.drop_last()).ingested(id, blocks.last())
    }
}

/// The window has as many slots as the board has cells, after any number
/// of blocks.
pub proof fn law_window_length(s: AppState, id: SubscriptionId, blocks: Seq<BlockState>)
    requires
        s.wf(),
    ensures
        ingested_all(s, id, blocks).wf(),
        ingested_all(s, id, blocks).blocks.len() == DEFAULT_TOTAL_BLOCKS,
        ingested_all(s, id, blocks).network_state == s.network_state,
    decreases blocks.len(),
{
    if blocks.len() > 0 {
        law_window_length(s, id, blocks.drop_last());
        lemma_ingested_wf(ingested_all(s, id, blocks.drop_last()), id, blocks.last());
    }
}

/// A block of the active subscription goes in front of the window: every
/// block that was there moves one slot on, and the block of the last slot
/// is gone.
pub proof fn law_window_shift(s: AppState, id: SubscriptionId, block: BlockState)
    requires
        s.wf(),
        s.network_state.is_valid(id),
    ensures
        s.ingested(id, block).blocks.len() == DEFAULT_TOTAL_BLOCKS,
        same_slot(s.ingested(id, block).blocks[0], Some(block)),
        forall|i: int|
            0 <= i < DEFAULT_TOTAL_BLOCKS - 1 ==> same_slot(
                #[trigger] s.ingested(id, block).blocks[i + 1],
                s.blocks[i],
            ),
{
    let a = s.reset_match_block().received(block);
    let b = a.refocused();
    let c = b.helped();
    lemma_focused_keeps_marks(a.blocks, a.cursor_index());
    if b.is_game_on() && b.is_help_on() {
        match help_target(b.matches) {
            Some(hash) => {
                lemma_highlighted_keeps_marks(b.blocks, hash, b.game_level);
            },
            None => {},
        }
    }
    let after = s.ingested(id, block).blocks;
    assert(c.ticked().blocks == c.blocks);
    assert(same_blocks(a.blocks, b.blocks));
    assert(same_blocks(b.blocks, c.blocks));
    assert forall|i: int| 0 <= i < DEFAULT_TOTAL_BLOCKS implies same_slot(
        #[trigger] after[i],
        a.blocks[i],
    ) by {
        assert(same_slot(b.blocks[i], a.blocks[i])) by {
            let x = a.blocks[i];
        }
        assert(same_slot(c.blocks[i], b.blocks[i])) by {
            let x = b.blocks[i];
        }
    }
    assert(same_slot(after[0], Some(block)));
    assert forall|i: int| 0 <= i < DEFAULT_TOTAL_BLOCKS - 1 implies same_slot(
        #[trigger] after[i + 1],
        s.blocks[i],
    ) by {
        assert(a.blocks[i + 1] == s.blocks[i]);
        assert(same_slot(after[i + 1], a.blocks[i + 1]));
    }
}

/// First in, first out: after `blocks` have come in under the active
/// subscription, the window holds the latest of them, the newest first,
/// and behind them what it held before, as far as there is room. Which
/// block leaves depends on when it came, not on its number.
pub proof fn law_window_fifo(s: AppState, id: SubscriptionId, blocks: Seq<BlockState>)
    requires
        s.wf(),
        s.network_state.is_valid(id),
    ensures
        forall|i: int|
            0 <= i < DEFAULT_TOTAL_BLOCKS && i < blocks.len() ==> same_slot(
                #[trigger] ingested_all(s, id, blocks).blocks[i],
                Some(blocks[blocks.len() - 1 - i]),
            ),
        forall|i: int|
            blocks.len() <= i < DEFAULT_TOTAL_BLOCKS ==> same_slot(
                #[trigger] ingested_all(s, id, blocks).blocks[i],
                s.blocks[i - blocks.len()],
            ),
    decreases blocks.len(),
{
    if blocks.len() > 0 {
        let earlier = blocks.drop_last();
        let before = ingested_all(s, id, earlier);
        let after = ingested_all(s, id, blocks);
        law_window_fifo(s, id, earlier);
        law_window_length(s, id, earlier);
        law_window_shift(before, id, blocks.last());
        assert forall|i: int| 0 <= i < DEFAULT_TOTAL_BLOCKS && i < blocks.len() implies same_slot(
            #[trigger] after.blocks[i],
            Some(blocks[blocks.len() - 1 - i]),
        ) by {
            if i > 0 {
                assert(same_slot(after.blocks[(i - 1) + 1], before.blocks[i - 1]));
                assert(same_slot(before.blocks[i - 1], Some(earlier[earlier.len() - 1 - (i - 1)])));
            }
        }
        assert forall|i: int| blocks.len() <= i < DEFAULT_TOTAL_BLOCKS implies same_slot(
            #[trigger] after.blocks[i],
            s.blocks[i - blocks.len()],
        ) by {
            assert(same_slot(after.blocks[(i - 1) + 1], before.blocks[i - 1]));
            assert(same_slot(before.blocks[i - 1], s.blocks[i - 1 - earlier.len()]));
        }
    }
}

/// The index never holds a hash with a count of zero, and its counts never
/// add up to more than the number of occupied slots of the window. Where
/// the index is exact, they add up to that number.
pub proof fn law_index_conservation(s: AppState)
    requires
        s.wf(),
    ensures
        no_zero_count(s.matches),
        total(s.matches) <= occupied_slots(s.blocks),
        s.index_is_exact() ==> total(s.matches) == occupied_slots(s.blocks),
{
    lemma_total_is_len(s.matches);
    lemma_tally_len(s.blocks, s.game_level);
    lemma_subset_len(as_multiset(s.matches), tally(s.blocks, s.game_level));
}

/// Whether `msg` ends in a match in state `s`.
pub open spec fn ends_in_match(s: AppState, msg: Msg) -> bool {
    match msg {
        Msg::BlockPressed(i) => s.press_kind(i as int) is Matched,
        Msg::KeyPressed(key) => (key is Enter || key is Space) && s.is_game_on() && s.press_kind(
            s.cursor_index(),
        ) is Matched,
        _ => false,
    }
}

/// An exact index stays exact under every message but one that ends in a
/// match, which takes two blocks out of the count and leaves them in the
/// window.
pub proof fn law_index_stays_exact(s: AppState, msg: Msg)
    requires
        s.wf(),
        s.index_is_exact(),
        !ends_in_match(s, msg),
    ensures
        App::updated(s, msg).wf(),
        App::updated(s, msg).index_is_exact(),
{
    law_update_keeps_wf(s, msg);
    match msg {
        Msg::NetworkSubscriptionCreated(id) => {
            lemma_subscription_created_wf(s, id);
        },
        Msg::NetworkDataReceived((id, block)) => {
            lemma_ingested_wf(s, id, block@);
        },
        Msg::NetworkChanged(runtime) => {
            lemma_surroundings_wf(s, runtime, true);
        },
        Msg::BlockClicked(i) => {
            lemma_clicked_wf(s, i as int);
        },
        Msg::BlockPressed(i) => {
            lemma_pressed_exact(s, i as int);
        },
        Msg::BlockAnimationEnded(number) => {
            lemma_animation_ended_wf(s, number);
        },
        Msg::StartButtonClicked => {
            lemma_reset_wf(s);
        },
        Msg::HelpButtonClicked => {
            lemma_next_level_wf(s, GameLevel::Level1);
        },
        Msg::LevelButtonClicked(level) => {
            lemma_next_level_wf(s, level);
        },
        Msg::NextLevel(level) => {
            lemma_next_level_wf(s, level);
        },
        Msg::NextLevelTimeout(level) => {
            lemma_next_level_wf(s, level);
        },
        Msg::SigningFinished(status) => {
            lemma_surroundings_wf(s, s.network_state.runtime, status is Failed);
        },
        Msg::KeyPressed(key) => {
            if !(s.press_kind(s.cursor_index()) is Matched) {
                lemma_pressed_exact(s, s.cursor_index());
            }
            lemma_reset_wf(s);
            lemma_next_level_wf(s, GameLevel::Level1);
            crate::invariants::lemma_moved_on_grid(s.cursor_position, key);
            crate::invariants::lemma_cursor_moved_wf(s, moved(s.cursor_position, key));
            crate::invariants::lemma_details_shown_wf(s);
        },
        _ => {
            lemma_surroundings_wf(s, s.network_state.runtime, true);
        },
    }
}

/// Committing a cell keeps an exact index exact unless it ends in a match.
proof fn lemma_pressed_exact(s: AppState, index: int)
    requires
        s.wf(),
        s.index_is_exact(),
        !(s.press_kind(index) is Matched),
    ensures
        s.pressed(index).index_is_exact(),
{
    if s.press_kind(index) is Missed {
        lemma_missed_wf(s, index);
    }
}

/// Every message takes a well-formed state to a well-formed state.
pub proof fn law_update_keeps_wf(s: AppState, msg: Msg)
    requires
        s.wf(),
    ensures
        App::updated(s, msg).wf(),
{
    match msg {
        Msg::NetworkSubscriptionCreated(id) => {
            lemma_subscription_created_wf(s, id);
        },
        Msg::NetworkDataReceived((id, block)) => {
            lemma_ingested_wf(s, id, block@);
        },
        Msg::NetworkChanged(runtime) => {
            lemma_surroundings_wf(s, runtime, true);
        },
        Msg::BlockClicked(i) => {
            lemma_clicked_wf(s, i as int);
        },
        Msg::BlockPressed(i) => {
            lemma_pressed_wf(s, i as int);
        },
        Msg::BlockAnimationEnded(number) => {
            lemma_animation_ended_wf(s, number);
        },
        Msg::StartButtonClicked => {
            lemma_reset_wf(s);
        },
        Msg::HelpButtonClicked => {
            lemma_next_level_wf(s, GameLevel::Level1);
        },
        Msg::LevelButtonClicked(level) => {
            lemma_next_level_wf(s, level);
        },
        Msg::NextLevel(level) => {
            lemma_next_level_wf(s, level);
        },
        Msg::NextLevelTimeout(level) => {
            lemma_next_level_wf(s, level);
        },
        Msg::SigningFinished(status) => {
            lemma_surroundings_wf(s, s.network_state.runtime, status is Failed);
        },
        Msg::KeyPressed(key) => {
            lemma_key_pressed_wf(s, key);
        },
        _ => {
            lemma_surroundings_wf(s, s.network_state.runtime, true);
        },
    }
}

/// There is one reference cell at most, and it lies on the board. A wrong
/// match and a call-off leave none; a pick makes the cell under the
/// cursor the reference cell; a match leaves the reference cell as it is,
/// for the streak to go on.
pub proof fn law_single_reference(s: AppState, index: int)
    requires
        s.wf(),
    ensures
        s.match_index() matches Some(slot) ==> 0 <= slot < DEFAULT_TOTAL_BLOCKS,
        s.pressed(index).match_position matches Some(position) ==> on_grid(position),
        s.press_kind(index) is Missed ==> s.pressed(index).match_position is None,
        s.press_kind(index) is Cancelled ==> s.pressed(index).match_position is None,
        s.press_kind(index) is Picked ==> s.pressed(index).match_position == Some(
            s.cursor_position,
        ),
        s.press_kind(index) is Matched ==> s.pressed(index).match_position == s.match_position,
        s.press_kind(index) is Ignored || s.press_kind(index) is Retired ==> s.pressed(index) == s,
{
    lemma_pressed_wf(s, index);
}

/// Whether `msg` begins anew in state `s`: a new subscription, or the
/// start of a game while none is on.
pub open spec fn begins_anew(s: AppState, msg: Msg) -> bool {
    match msg {
        Msg::NetworkSubscriptionCreated(_) => true,
        Msg::StartButtonClicked => !s.is_game_on(),
        Msg::KeyPressed(key) => (key is S || key is Enter) && !s.is_game_on(),
        _ => false,
    }
}

/// The points never fall but where the game begins anew.
pub proof fn law_points_monotonic(s: AppState, msg: Msg)
    requires
        s.wf(),
        !begins_anew(s, msg),
    ensures
        App::updated(s, msg).points >= s.points,
{
}

/// The points of a match double with every match of the streak: 8 for
/// the first match against a reference cell, 16 for the second, 32 for the
/// third.
pub proof fn law_combo_doubles(n: nat)
    ensures
        combo_points(1) == 8,
        combo_points(2) == 16,
        combo_points(3) == 32,
        combo_points(n + 1) == 2 * combo_points(n),
{
    reveal_with_fuel(doubled, 4);
    let d = doubled(n);
    assert(doubled(n + 1) == 2 * d);
    assert(4 * (2 * d) == 2 * (4 * d));
}

/// A match brings the streak up by one and the points up by the base
/// points doubled once for each match of the streak.
pub proof fn law_combo_scaling(s: AppState, index: int)
    requires
        s.wf(),
        s.press_kind(index) is Matched,
    ensures
        s.pressed(index).match_counter == s.match_counter + 1,
        s.pressed(index).previous_points == s.points,
        s.pressed(index).points == capped_sum(
            s.points,
            combo_points((s.match_counter + 1) as nat),
        ),
{
    lemma_matched_wf(s, index);
}

/// A wrong match costs one try, and the game is over with the last try and
/// not before.
pub proof fn law_tries_exhaustion(s: AppState, index: int)
    requires
        s.wf(),
        s.press_kind(index) is Missed,
        s.tries > 0,
    ensures
        s.pressed(index).tries == s.tries - 1,
        s.pressed(index).game_status is Over <==> s.tries == 1,
        s.tries > 1 ==> s.pressed(index).game_status == s.game_status,
{
}

/// A game of four tries is on after the first, the second and the third
/// wrong match, whatever is done between them but to begin anew, and over
/// after the fourth.
pub proof fn law_four_tries(a: AppState, b: AppState, c: AppState, d: AppState, i: (int, int, int, int))
    requires
        a.wf() && b.wf() && c.wf() && d.wf(),
        a.tries == DEFAULT_INITIAL_TRIES,
        a.press_kind(i.0) is Missed,
        b.tries == a.pressed(i.0).tries && b.press_kind(i.1) is Missed,
        c.tries == b.pressed(i.1).tries && c.press_kind(i.2) is Missed,
        d.tries == c.pressed(i.2).tries && d.press_kind(i.3) is Missed,
    ensures
        a.pressed(i.0).is_game_on() && a.pressed(i.0).tries == 3,
        b.pressed(i.1).is_game_on() && b.pressed(i.1).tries == 2,
        c.pressed(i.2).is_game_on() && c.pressed(i.2).tries == 1,
        d.pressed(i.3).game_status is Over && d.pressed(i.3).tries == 0,
{
}

/// The cursor goes round the board: up from the first row it comes to the
/// last row of the same column, left from the first column to the last
/// column of the same row, and back the other way.
pub proof fn law_cursor_wraparound(position: Position)
    requires
        on_grid(position),
    ensures
        on_grid(moved(position, SupportedKeys::Up)),
        on_grid(moved(position, SupportedKeys::Down)),
        on_grid(moved(position, SupportedKeys::Left)),
        on_grid(moved(position, SupportedKeys::Right)),
        position.1 == 0 ==> moved(position, SupportedKeys::Up) == (position.0, (GRID_SIZE - 1) as u8),
        position.0 == 0 ==> moved(position, SupportedKeys::Left) == (
            (GRID_SIZE - 1) as u8,
            position.1,
        ),
        position.1 == GRID_SIZE - 1 ==> moved(position, SupportedKeys::Down) == (position.0, 0u8),
        position.0 == GRID_SIZE - 1 ==> moved(position, SupportedKeys::Right) == (0u8, position.1),
        moved(moved(position, SupportedKeys::Up), SupportedKeys::Down) == position,
        moved(moved(position, SupportedKeys::Left), SupportedKeys::Right) == position,
{
}

/// Places and slots tell each other: the cell in column `x` of row `y`
/// has slot `y` times the side of the board plus `x`, and from the slot
/// the place is had back.
pub proof fn law_cursor_indexing(position: Position, index: int)
    requires
        on_grid(position),
        0 <= index < DEFAULT_TOTAL_BLOCKS,
    ensures
        0 <= index_of(position) < DEFAULT_TOTAL_BLOCKS,
        position_of(index_of(position)) == position,
        on_grid(position_of(index)),
        index_of(position_of(index)) == index,
{
}

/// While playing, an arrow key takes the cursor where the arrow points,
/// round the board.
pub proof fn law_arrow_moves_cursor(s: AppState, key: SupportedKeys)
    requires
        s.wf(),
        s.is_game_on(),
        key is Up || key is Down || key is Left || key is Right,
    ensures
        s.key_pressed(key).cursor_position == moved(s.cursor_position, key),
{
    crate::invariants::lemma_moved_on_grid(s.cursor_position, key);
}

/// The end of an animation sends the game into the pause before the
/// second level if and only if the cell was matched, the game is on at the
/// first level, and the last match took the points from below 32 to 32 or
/// more. It does so once: in the pause and at the second level no end of
/// an animation does it again, and points that did not move do not either.
pub proof fn law_level_up_gating(s: AppState, number: BlockNumber, later: BlockNumber)
    requires
        s.wf(),
    ensures
        s.animation_ended(number).game_status == if s.animation_levels_up(number) {
            GameStatus::MoveTo(GameLevel::Level2)
        } else {
            s.game_status
        },
        s.animation_levels_up(number) ==> s.game_status is On && s.game_level is Level1
            && s.previous_points < 32 <= s.points,
        !s.animation_ended(number).animation_levels_up(later) || !s.animation_levels_up(number),
        s.previous_points == s.points ==> !s.animation_levels_up(number),
        s.previous_points >= 32 ==> !s.animation_levels_up(number),
        s.game_level is Level2 ==> !s.animation_levels_up(number),
{
}

/// A block of another subscription than the active one changes nothing.
pub proof fn law_stale_block_dropped(s: AppState, id: SubscriptionId, block: BlockState)
    requires
        !s.network_state.is_valid(id),
    ensures
        s.ingested(id, block) == s,
{
}

} // verus!
