//! The game as a state machine over mathematical values.
//!
//! A state holds the window of the most recent blocks, the pattern index,
//! the cursor and the reference cell, and the score. Each operation of the
//! game is a function from the state before to the state after.
use vstd::prelude::*;
use vstd::multiset::Multiset;
use crate::block::{BlockNumber, BlockState};
use crate::game::{BoardStatus, GameHelpStatus, GameLevel, GameStatus};
use crate::hashing::CorespaceHash;
use crate::keyboard::SupportedKeys;
use crate::matches::{added, as_multiset, is_last_above_threshold, no_zero_count, taken, tally};
use crate::network::{NetworkStateView, NetworkStatus, SubscriptionId};
use crate::support::SupportedRelayRuntime;

verus! {

/// A place on the board: column and row, counted from 0.
pub type Position = (u8, u8);

/// The board has as many rows as columns.
pub const GRID_SIZE: u8 = 3;

/// The number of slots of the window, one for each cell of the board.
pub const DEFAULT_TOTAL_BLOCKS: u32 = 9;

pub const DEFAULT_INITIAL_POINTS: u32 = 0;

/// The points of a match before the streak doubles them.
pub const DEFAULT_BASE_POINTS: u32 = 4;

pub const DEFAULT_INITIAL_DURATION: u32 = 0;

/// The number of wrong matches that end a game.
pub const DEFAULT_INITIAL_TRIES: u32 = 4;

/// The number of cells that can be highlighted at one level.
pub const DEFAULT_INITIAL_HELPS: u32 = 8;

/// The length of the pause between two levels, in milliseconds.
pub const LEVEL_TRANSITION_MILLIS: u32 = 6000;

/// Whether `position` lies on the board.
pub open spec fn on_grid(position: Position) -> bool {
    position.0 < GRID_SIZE && position.1 < GRID_SIZE
}

/// The slot of the cell at `position`, rows first.
pub open spec fn index_of(position: Position) -> int {
    position.1 * GRID_SIZE + position.0
}

/// The place of slot `index` on the board.
pub open spec fn position_of(index: int) -> Position {
    ((index % (GRID_SIZE as int)) as u8, (index / (GRID_SIZE as int)) as u8)
}

/// Where an arrow key takes the cursor from `position`: one cell on, and
/// from an edge of the board to the opposite edge. Other keys leave it.
pub open spec fn moved(position: Position, key: SupportedKeys) -> Position {
    let (x, y) = position;
    let edge = (GRID_SIZE - 1) as u8;
    match key {
        SupportedKeys::Up => if y == 0 {
            (x, edge)
        } else {
            (x, (y - 1) as u8)
        },
        SupportedKeys::Down => if y == edge {
            (x, 0)
        } else {
            (x, (y + 1) as u8)
        },
        SupportedKeys::Left => if x == 0 {
            (edge, y)
        } else {
            ((x - 1) as u8, y)
        },
        SupportedKeys::Right => if x == edge {
            (0, y)
        } else {
            ((x + 1) as u8, y)
        },
        _ => position,
    }
}

/// The place after `position` in reading order; the first after the last.
pub open spec fn next_position(position: Position) -> Position {
    let (x, y) = position;
    let edge = (GRID_SIZE - 1) as u8;
    if x < edge {
        ((x + 1) as u8, y)
    } else if y < edge {
        (0, (y + 1) as u8)
    } else {
        (0, 0)
    }
}

/// 2 to the power of `n`.
pub open spec fn doubled(n: nat) -> nat
    decreases n,
{
    if n == 0 {
        1
    } else {
        2 * doubled((n - 1) as nat)
    }
}

/// The points of the match that brings the streak to `streak`.
pub open spec fn combo_points(streak: nat) -> nat {
    DEFAULT_BASE_POINTS as nat * doubled(streak)
}

/// `a` and `b` added up, but no more than a counter can hold.
pub open spec fn capped_sum(a: u32, b: nat) -> u32 {
    if a + b > u32::MAX {
        u32::MAX
    } else {
        (a + b) as u32
    }
}

/// `window` with `change` made to the block of every occupied slot.
pub open spec fn each_block(
    window: Seq<Option<BlockState>>,
    change: spec_fn(int, BlockState) -> BlockState,
) -> Seq<Option<BlockState>> {
    Seq::new(
        window.len(),
        |i: int|
            match window[i] {
                Some(block) => Some(change(i, block)),
                None => None,
            },
    )
}

/// `window` with `change` made to the block of slot `index`, if there is
/// such a slot and it is occupied.
pub open spec fn one_block(
    window: Seq<Option<BlockState>>,
    index: int,
    change: spec_fn(BlockState) -> BlockState,
) -> Seq<Option<BlockState>> {
    if 0 <= index < window.len() && window[index] is Some {
        window.update(index, Some(change(window[index]->0)))
    } else {
        window
    }
}

/// `window` with the cell of slot `cursor` selected and no other: the
/// others lose their selection and their passing marks.
pub open spec fn focused(window: Seq<Option<BlockState>>, cursor: int) -> Seq<Option<BlockState>> {
    each_block(
        window,
        |i: int, block: BlockState|
            if i == cursor {
                block.selected()
            } else {
                block.unselected().cleared()
            },
    )
}

/// Whether `block` is highlighted when `hash` is the pattern to show: it
/// has that hash at `level` and is neither matched nor disabled.
pub open spec fn wants_help(block: BlockState, hash: CorespaceHash, level: GameLevel) -> bool {
    block.hash(level) == hash && block.is_help_available() && !block.is_disabled()
}

/// `window` with the pattern `hash` highlighted.
pub open spec fn highlighted(
    window: Seq<Option<BlockState>>,
    hash: CorespaceHash,
    level: GameLevel,
) -> Seq<Option<BlockState>> {
    each_block(
        window,
        |i: int, block: BlockState|
            if wants_help(block, hash, level) {
                block.help()
            } else {
                block
            },
    )
}

/// The number of cells that highlighting the pattern `hash` marks.
pub open spec fn highlight_count(
    window: Seq<Option<BlockState>>,
    hash: CorespaceHash,
    level: GameLevel,
) -> nat {
    window.filter(
        |slot: Option<BlockState>| slot is Some && wants_help(slot->0, hash, level),
    ).len()
}

/// The number of cells of `window` that have been matched.
pub open spec fn retired_cells(window: Seq<Option<BlockState>>) -> nat {
    window.filter(|slot: Option<BlockState>| slot is Some && slot->0.is_retired()).len()
}

/// Whether slot `index` of `window` holds the block with number `number`.
pub open spec fn holds_block(
    window: Seq<Option<BlockState>>,
    index: int,
    number: BlockNumber,
) -> bool {
    0 <= index < window.len() && window[index] is Some && window[index]->0.block_number == number
}

/// Whether slot `index` is the first of `window` that holds block `number`.
pub open spec fn first_holds_block(
    window: Seq<Option<BlockState>>,
    index: int,
    number: BlockNumber,
) -> bool {
    holds_block(window, index, number) && forall|j: int|
        0 <= j < index ==> !holds_block(window, j, number)
}

/// The first slot of `window` that holds block `number`, if any does.
pub open spec fn find_block(window: Seq<Option<BlockState>>, number: BlockNumber) -> Option<int> {
    if exists|i: int| first_holds_block(window, i, number) {
        Some(choose|i: int| first_holds_block(window, i, number))
    } else {
        None
    }
}

/// The pattern that help shows: the last of the hashes that are counted
/// more than once, if there is any.
pub open spec fn help_target(counts: Map<CorespaceHash, u32>) -> Option<CorespaceHash> {
    if exists|hash: CorespaceHash| is_last_above_threshold(counts, hash) {
        Some(choose|hash: CorespaceHash| is_last_above_threshold(counts, hash))
    } else {
        None
    }
}

/// What is left of the help budget, and of help, after `cells` cells were
/// highlighted. The budget counts only while help is on; help ends at the
/// moment the budget is used up.
pub open spec fn spend_helps(helps: u32, status: GameHelpStatus, cells: nat) -> (
    u32,
    GameHelpStatus,
) {
    if status is On && helps > 0 && cells > 0 {
        if cells >= helps {
            (0, GameHelpStatus::NotAvailable)
        } else {
            ((helps - cells) as u32, status)
        }
    } else {
        (helps, status)
    }
}

/// The counts that hold each hash as often as `hashes` does.
pub open spec fn counts_of(hashes: Multiset<CorespaceHash>) -> Map<CorespaceHash, u32> {
    Map::new(
        |hash: CorespaceHash| hashes.count(hash) > 0,
        |hash: CorespaceHash| hashes.count(hash) as u32,
    )
}

/// A window without blocks.
pub open spec fn empty_window() -> Seq<Option<BlockState>> {
    Seq::new(DEFAULT_TOTAL_BLOCKS as nat, |i: int| None)
}

/// What committing a cell comes to.
pub enum PressKind {
    /// No game is on, or there is no block at the cell.
    Ignored,
    /// The cell has been matched before.
    Retired,
    /// No reference cell was set: the cell under the cursor becomes it.
    Picked,
    /// The cell is the reference cell itself: the attempt is called off.
    Cancelled,
    /// The cell matches the reference cell.
    Matched,
    /// The cell does not match the reference cell.
    Missed,
}

/// The state of a game.
pub struct AppState {
    pub board_status: BoardStatus,
    pub previous_board_status: Option<BoardStatus>,
    pub network_state: NetworkStateView,
    /// The window: the newest block in slot 0.
    pub blocks: Seq<Option<BlockState>>,
    /// The reference cell of the match attempt under way.
    pub match_position: Option<Position>,
    /// The matches made against the reference cell so far.
    pub match_counter: u32,
    /// The pattern index.
    pub matches: Map<CorespaceHash, u32>,
    /// The reference block of the wrong match that ended the last game.
    pub previous_match_block: Option<BlockState>,
    pub game_status: GameStatus,
    pub game_level: GameLevel,
    /// The blocks received while playing.
    pub duration: u32,
    pub points: u32,
    /// The points before the last match.
    pub previous_points: u32,
    /// The wrong matches that are left.
    pub tries: u32,
    /// The cells that can still be highlighted.
    pub helps: u32,
    pub game_help_status: GameHelpStatus,
    pub cursor_position: Position,
}

impl AppState {
    /// What holds of every state the game reaches.
    pub open spec fn wf(self) -> bool {
        &&& self.blocks.len() == DEFAULT_TOTAL_BLOCKS
        &&& on_grid(self.cursor_position)
        &&& self.match_position matches Some(position) ==> on_grid(position)
        &&& self.matches.dom().finite()
        &&& no_zero_count(self.matches)
        &&& as_multiset(self.matches).subset_of(tally(self.blocks, self.game_level))
        &&& self.match_counter <= retired_cells(self.blocks)
    }

    /// Whether the index counts exactly the blocks of the window.
    pub open spec fn index_is_exact(self) -> bool {
        as_multiset(self.matches) == tally(self.blocks, self.game_level)
    }

    /// The state in which the game begins, before any feed is active.
    pub open spec fn initial(runtime: SupportedRelayRuntime) -> AppState {
        AppState {
            board_status: BoardStatus::Game,
            previous_board_status: None,
            network_state: NetworkStateView {
                status: NetworkStatus::Initializing,
                subscription_id: None,
                runtime,
                parachain_colors: Map::empty(),
            },
            blocks: empty_window(),
            match_position: None,
            match_counter: 0,
            matches: Map::empty(),
            previous_match_block: None,
            game_status: GameStatus::Init,
            game_level: GameLevel::Level1,
            duration: DEFAULT_INITIAL_DURATION,
            points: DEFAULT_INITIAL_POINTS,
            previous_points: DEFAULT_INITIAL_POINTS,
            tries: DEFAULT_INITIAL_TRIES,
            helps: DEFAULT_INITIAL_HELPS,
            game_help_status: GameHelpStatus::Available,
            cursor_position: (0, 0),
        }
    }

    pub open spec fn is_game_on(self) -> bool {
        self.game_status.is_playing()
    }

    pub open spec fn is_game_over(self) -> bool {
        self.game_status is Over
    }

    pub open spec fn is_help_on(self) -> bool {
        self.game_help_status is On
    }

    /// The slot of the cell under the cursor.
    pub open spec fn cursor_index(self) -> int {
        index_of(self.cursor_position)
    }

    /// The slot of the reference cell.
    pub open spec fn match_index(self) -> Option<int> {
        match self.match_position {
            Some(position) => Some(index_of(position)),
            None => None,
        }
    }

    /// The block of the reference cell.
    pub open spec fn match_block(self) -> Option<BlockState> {
        match self.match_index() {
            Some(index) => if 0 <= index < self.blocks.len() {
                self.blocks[index]
            } else {
                None
            },
            None => None,
        }
    }

    /// Whether the points have just passed what completes the first level.
    pub open spec fn is_next_level_available(self, current_level: GameLevel) -> bool
        recommends
            current_level is Level1,
    {
        &&& self.game_level == current_level
        &&& self.previous_points < current_level.spec_points_minimum()
        &&& self.points >= current_level.spec_points_minimum()
    }

    /// Whether the game goes on to the second level now: it is on at the
    /// first level and the last match took the points past its minimum.
    pub open spec fn level_up_due(self) -> bool {
        self.game_status is On && self.is_next_level_available(GameLevel::Level1)
    }

    /// The state with the index counted anew from the window.
    pub open spec fn reindexed(self) -> AppState {
        AppState { matches: counts_of(tally(self.blocks, self.game_level)), ..self }
    }

    /// The state with no match attempt under way.
    pub open spec fn reset_match_block(self) -> AppState {
        AppState { match_counter: 0, match_position: None, ..self }
    }

    /// The state with `block` put in front of the window and counted, and
    /// with the block that falls off the end, if any, taken out of the
    /// count.
    pub open spec fn received(self, block: BlockState) -> AppState {
        let pushed = seq![Some(block)] + self.blocks;
        let counted = added(self.matches, block.hash(self.game_level));
        if pushed.len() > DEFAULT_TOTAL_BLOCKS {
            AppState {
                blocks: pushed.drop_last(),
                matches: match pushed.last() {
                    Some(oldest) => taken(counted, oldest.hash(self.game_level), 1),
                    None => counted,
                },
                ..self
            }
        } else {
            AppState { blocks: pushed, matches: counted, ..self }
        }
    }

    /// While playing: the state with the cell under the cursor selected and
    /// no other.
    pub open spec fn refocused(self) -> AppState {
        if self.is_game_on() {
            AppState { blocks: focused(self.blocks, self.cursor_index()), ..self }
        } else {
            self
        }
    }

    /// While playing with help on: the state with the pattern to show
    /// highlighted and paid for from the help budget.
    pub open spec fn helped(self) -> AppState {
        if self.is_game_on() && self.is_help_on() {
            match help_target(self.matches) {
                Some(hash) => {
                    let cells = highlight_count(self.blocks, hash, self.game_level);
                    let (helps, status) = spend_helps(self.helps, self.game_help_status, cells);
                    AppState {
                        blocks: highlighted(self.blocks, hash, self.game_level),
                        helps,
                        game_help_status: status,
                        ..self
                    }
                },
                None => self,
            }
        } else {
            self
        }
    }

    /// While playing: the state one block later.
    pub open spec fn ticked(self) -> AppState {
        if self.is_game_on() {
            AppState { duration: capped_sum(self.duration, 1), ..self }
        } else {
            self
        }
    }

    /// The state after the feed has handed over `block` under subscription
    /// `id`. A block of another subscription than the active one changes
    /// nothing.
    pub open spec fn ingested(self, id: SubscriptionId, block: BlockState) -> AppState {
        if self.network_state.is_valid(id) {
            self.reset_match_block().received(block).refocused().helped().ticked()
        } else {
            self
        }
    }

    /// The state after the cell of slot `index` has been clicked: while
    /// playing, the cursor goes there.
    pub open spec fn clicked(self, index: int) -> AppState {
        if self.is_game_on() && 0 <= index < DEFAULT_TOTAL_BLOCKS {
            let left = if self.cursor_index() != index {
                one_block(self.blocks, self.cursor_index(), |block: BlockState| block.unselected())
            } else {
                self.blocks
            };
            AppState {
                blocks: one_block(left, index, |block: BlockState| block.selected()),
                cursor_position: position_of(index),
                ..self
            }
        } else {
            self
        }
    }

    /// The state with the cursor at slot `index`, if the board has that
    /// slot.
    pub open spec fn cursor_set(self, index: int) -> AppState {
        if 0 <= index < DEFAULT_TOTAL_BLOCKS {
            AppState { cursor_position: position_of(index), ..self }
        } else {
            self
        }
    }

    /// The state with the cell of slot `index` as the reference cell, if
    /// the board has that slot.
    pub open spec fn reference_set(self, index: int) -> AppState {
        if 0 <= index < DEFAULT_TOTAL_BLOCKS {
            AppState { match_position: Some(position_of(index)), ..self }
        } else {
            self
        }
    }

    /// The state after the cursor has been sent to `position`: while
    /// playing, it goes there if that is another place on the board.
    pub open spec fn cursor_moved(self, position: Position) -> AppState {
        if self.is_game_on() && position != self.cursor_position && on_grid(position) {
            let left = one_block(
                self.blocks,
                self.cursor_index(),
                |block: BlockState| block.unselected(),
            );
            AppState {
                blocks: one_block(left, index_of(position), |block: BlockState| block.selected()),
                cursor_position: position,
                ..self
            }
        } else {
            self
        }
    }

    /// While playing: the state with the cursor one place on in reading
    /// order.
    pub open spec fn cursor_advanced(self) -> AppState {
        if self.is_game_on() {
            AppState { cursor_position: next_position(self.cursor_position), ..self }
        } else {
            self
        }
    }

    /// While playing: the state with the cell under the cursor turned
    /// over, unless it is being turned already.
    pub open spec fn details_shown(self) -> AppState {
        if self.is_game_on() {
            AppState {
                blocks: one_block(
                    self.blocks,
                    self.cursor_index(),
                    |block: BlockState|
                        if block.is_anim_live() {
                            block
                        } else {
                            block.flipped()
                        },
                ),
                ..self
            }
        } else {
            self
        }
    }

    /// What committing the cell of slot `index` comes to.
    pub open spec fn press_kind(self, index: int) -> PressKind {
        if !self.is_game_on() || !(0 <= index < self.blocks.len()) {
            PressKind::Ignored
        } else {
            match self.blocks[index] {
                None => PressKind::Ignored,
                Some(block) => {
                    if block.is_retired() {
                        PressKind::Retired
                    } else {
                        match self.match_block() {
                            None => PressKind::Picked,
                            Some(reference) => {
                                if reference.block_number == block.block_number {
                                    PressKind::Cancelled
                                } else if reference.hash(self.game_level) == block.hash(
                                    self.game_level,
                                ) {
                                    PressKind::Matched
                                } else {
                                    PressKind::Missed
                                }
                            },
                        }
                    }
                },
            }
        }
    }

    /// The state with the cell under the cursor as the reference cell of a
    /// new match attempt.
    pub open spec fn picked(self) -> AppState {
        AppState { match_position: Some(self.cursor_position), match_counter: 0, ..self }
    }

    /// The state after the cell of slot `index` has matched the reference
    /// cell: both are marked as matched and leave the count of their hash,
    /// the streak grows by one, and the points grow by the base points
    /// doubled once for each match of the streak.
    pub open spec fn matched(self, index: int) -> AppState
        recommends
            self.press_kind(index) is Matched,
    {
        let reference = self.match_index()->0;
        let marked = one_block(
            one_block(self.blocks, index, |block: BlockState| block.matched()),
            reference,
            |block: BlockState| block.matched(),
        );
        let streak = self.match_counter + 1;
        AppState {
            blocks: marked,
            matches: taken(self.matches, self.match_block()->0.hash(self.game_level), 2),
            match_counter: streak as u32,
            previous_points: self.points,
            points: capped_sum(self.points, combo_points(streak as nat)),
            ..self
        }
    }

    /// The state after the cell of slot `index` has failed to match the
    /// reference cell: both are marked as missed, a try is spent and the
    /// attempt is over. With the last try the game is over as well: the
    /// reference block is kept for the result, the cursor's cell is no
    /// longer selected and the board shows the options.
    pub open spec fn missed(self, index: int) -> AppState
        recommends
            self.press_kind(index) is Missed,
    {
        let reference = self.match_index()->0;
        let marked = one_block(
            one_block(self.blocks, index, |block: BlockState| block.missed()),
            reference,
            |block: BlockState| block.missed(),
        );
        if self.tries == 1 {
            AppState {
                blocks: one_block(
                    marked,
                    self.cursor_index(),
                    |block: BlockState| block.unselected(),
                ),
                tries: 0,
                game_status: GameStatus::Over,
                previous_match_block: marked[reference],
                board_status: BoardStatus::Options,
                match_position: None,
                ..self
            }
        } else if self.tries == 0 {
            AppState { blocks: marked, match_position: None, ..self }
        } else {
            AppState {
                blocks: marked,
                tries: (self.tries - 1) as u32,
                match_position: None,
                ..self
            }
        }
    }

    /// The state after the cell of slot `index` has been committed.
    pub open spec fn pressed(self, index: int) -> AppState {
        match self.press_kind(index) {
            PressKind::Ignored => self,
            PressKind::Retired => self,
            PressKind::Picked => self.picked(),
            PressKind::Cancelled => AppState { match_position: None, ..self },
            PressKind::Matched => self.matched(index),
            PressKind::Missed => self.missed(index),
        }
    }

    /// Whether the board is to be drawn anew after the cell of slot
    /// `index` has been committed.
    pub open spec fn pressed_render(self, index: int) -> bool {
        !(self.press_kind(index) is Retired || self.press_kind(index) is Cancelled)
    }

    /// The state after the game has been asked to go on at `level`: a game
    /// that is on pauses, with a fresh help budget.
    pub open spec fn next_level(self, level: GameLevel) -> AppState {
        if self.game_status is On {
            AppState {
                game_status: GameStatus::MoveTo(level),
                helps: DEFAULT_INITIAL_HELPS,
                game_help_status: GameHelpStatus::Available,
                ..self
            }
        } else {
            self
        }
    }

    /// The state after the pause before `level` has run out: the game is
    /// on again, at `level`, with a fresh help budget and an index counted
    /// at that level. Without such a pause nothing changes.
    pub open spec fn next_level_timeout(self, level: GameLevel) -> AppState {
        if self.game_status == GameStatus::MoveTo(level) {
            AppState {
                game_level: level,
                game_status: GameStatus::On,
                helps: DEFAULT_INITIAL_HELPS,
                game_help_status: GameHelpStatus::Available,
                ..self
            }.reindexed()
        } else {
            self
        }
    }

    /// The state after the animation of the cell that shows block `number`
    /// has ended. A matched cell is disabled, and the game goes on to the
    /// second level if that is due; any other cell loses its passing marks.
    pub open spec fn animation_ended(self, number: BlockNumber) -> AppState {
        match find_block(self.blocks, number) {
            None => self,
            Some(index) => {
                let block = self.blocks[index]->0;
                if block.is_matched() {
                    let settled = AppState {
                        blocks: self.blocks.update(index, Some(block.disabled())),
                        ..self
                    };
                    if settled.level_up_due() {
                        settled.next_level(GameLevel::Level2)
                    } else {
                        settled
                    }
                } else {
                    AppState { blocks: self.blocks.update(index, Some(block.cleared())), ..self }
                }
            },
        }
    }

    /// Whether the end of the animation of block `number` sends the game on
    /// to the second level.
    pub open spec fn animation_levels_up(self, number: BlockNumber) -> bool {
        &&& find_block(self.blocks, number) matches Some(index)
        &&& self.blocks[index]->0.is_matched()
        &&& self.level_up_due()
    }

    /// The state with everything of a game back at its beginning, but the
    /// blocks of the window, which only lose their marks.
    pub open spec fn reset(self) -> AppState {
        AppState {
            blocks: each_block(self.blocks, |i: int, block: BlockState| block.reset_class()),
            game_status: GameStatus::Ready,
            game_level: GameLevel::Level2,
            duration: DEFAULT_INITIAL_DURATION,
            points: DEFAULT_INITIAL_POINTS,
            previous_points: DEFAULT_INITIAL_POINTS,
            tries: DEFAULT_INITIAL_TRIES,
            helps: DEFAULT_INITIAL_HELPS,
            game_help_status: GameHelpStatus::Available,
            cursor_position: (0, 0),
            match_position: None,
            match_counter: 0,
            ..self
        }.reindexed()
    }

    /// The state with everything of a game back at its beginning and an
    /// empty window.
    pub open spec fn full_reset(self) -> AppState {
        AppState { blocks: empty_window(), matches: Map::empty(), ..self.reset() }
    }

    /// The state after a game has been asked for: unless one is on, a new
    /// game begins at the first level on the blocks of the window.
    pub open spec fn started(self) -> AppState {
        if self.is_game_on() {
            self
        } else {
            AppState {
                previous_board_status: Some(self.board_status),
                board_status: BoardStatus::Game,
                game_status: GameStatus::On,
                game_level: GameLevel::Level1,
                ..self.reset()
            }.reindexed()
        }
    }

    /// The state after help has been asked for: while playing with help
    /// available, help is on and the index is counted anew.
    pub open spec fn help_started(self) -> AppState {
        if self.is_game_on() && self.game_help_status is Available {
            AppState { game_help_status: GameHelpStatus::On, ..self }.reindexed()
        } else {
            self
        }
    }

    /// The state after `level` has been chosen: the game is at that level
    /// and the index is counted at it.
    pub open spec fn level_chosen(self, level: GameLevel) -> AppState {
        AppState { game_level: level, ..self }.reindexed()
    }

    /// The state after the player has chosen the chain `runtime`: an
    /// active feed switches over to it and the game waits for the new
    /// feed.
    pub open spec fn network_changed(self, runtime: SupportedRelayRuntime) -> AppState {
        if self.network_state.status is Active {
            AppState {
                network_state: NetworkStateView {
                    status: NetworkStatus::Switching,
                    runtime,
                    ..self.network_state
                },
                game_status: GameStatus::Reload,
                ..self
            }
        } else {
            self
        }
    }

    /// The state after subscription `id` has become the active one: the
    /// game is reset and the window is empty.
    pub open spec fn subscription_created(self, id: SubscriptionId) -> AppState {
        AppState {
            network_state: NetworkStateView {
                subscription_id: Some(id),
                status: NetworkStatus::Active,
                ..self.network_state
            },
            ..self
        }.full_reset()
    }

    /// The state after the page about the game has been asked for, or
    /// left.
    pub open spec fn info_toggled(self) -> AppState {
        if self.board_status is About {
            match self.previous_board_status {
                Some(previous) => AppState { board_status: previous, ..self },
                None => self,
            }
        } else {
            AppState {
                previous_board_status: Some(self.board_status),
                board_status: BoardStatus::About,
                ..self
            }
        }
    }

    /// The state after the accounts of the browser extension have come in:
    /// the board shows them.
    pub open spec fn accounts_loaded(self) -> AppState {
        AppState {
            previous_board_status: Some(self.board_status),
            board_status: BoardStatus::Account,
            ..self
        }
    }

    /// The state after an account has been chosen: the board shows what it
    /// showed before the accounts.
    pub open spec fn account_clicked(self) -> AppState {
        AppState {
            board_status: match self.previous_board_status {
                Some(previous) => previous,
                None => BoardStatus::Game,
            },
            ..self
        }
    }

    /// The state after the signing of a result has ended: a failure leaves
    /// the game over, a success changes nothing.
    pub open spec fn signing_finished(self, failed: bool) -> AppState {
        if failed {
            AppState { game_status: GameStatus::Over, ..self }
        } else {
            self
        }
    }

    /// The state after `key` has been pressed.
    pub open spec fn key_pressed(self, key: SupportedKeys) -> AppState {
        match key {
            SupportedKeys::Enter => if self.is_game_on() {
                self.pressed(self.cursor_index())
            } else {
                self.started()
            },
            SupportedKeys::Space => if self.is_game_on() {
                self.pressed(self.cursor_index())
            } else {
                self
            },
            SupportedKeys::Up | SupportedKeys::Down | SupportedKeys::Left | SupportedKeys::Right => {
                self.cursor_moved(moved(self.cursor_position, key))
            },
            SupportedKeys::S => self.started(),
            SupportedKeys::H => self.help_started(),
            SupportedKeys::F => self.details_shown(),
            SupportedKeys::NotSupported => self,
        }
    }

    /// The result of the last game: points, blocks played and the number
    /// of the reference block of its last wrong match, once there is one.
    pub open spec fn game_results(self) -> Option<Seq<char>> {
        match self.previous_match_block {
            Some(block) => Some(
                crate::text::decimal(self.points as nat) + "/"@ + crate::text::decimal(
                    self.duration as nat,
                ) + "/"@ + crate::text::decimal(block.block_number as nat),
            ),
            None => None,
        }
    }

    /// The message by which the result of the last game is shared.
    pub open spec fn share_message(self) -> Option<Seq<char>> {
        match self.previous_match_block {
            Some(block) => Some(
                "corematch.xyz "@ + self.game_results()->0 + " 👀\n"@ + "\n"@
                    + block.runtime.spec_hashtag(),
            ),
            None => None,
        }
    }

    /// The style class that tells which cell is the reference cell.
    pub open spec fn match_class(self) -> Seq<char> {
        match self.match_index() {
            Some(index) => "match__"@ + crate::text::decimal(index as nat),
            None => Seq::empty(),
        }
    }
}

} // verus!
