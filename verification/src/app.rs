//! The game engine: the state of a game in memory and the operations on
//! it. Each operation runs to its end before the next begins, and does to
//! the state what the state machine of the model says.
use vstd::prelude::*;
use vstd::string::StringExecFns;
use crate::account::{Account, SigningStatus};
use crate::block::{Block, BlockNumber, BlockState};
use crate::board::{
    find_block_index, flip_at, focus_window, highlight_window, match_at, miss_at, new_window,
    reset_window, select_at, settle_at, unselect_at,
};
use crate::corespace::ParachainIds;
use crate::game::{BoardStatus, GameHelpStatus, GameLevel, GameStatus};
use crate::invariants::{
    lemma_animation_ended_wf, lemma_clicked_wf, lemma_count_bound, lemma_cursor_advanced_wf,
    lemma_cursor_moved_wf, lemma_details_shown_wf, lemma_ingested_wf, lemma_initial_wf,
    lemma_key_pressed_wf, lemma_matched_wf, lemma_moved_on_grid, lemma_next_level_wf,
    lemma_pressed_wf, lemma_received_wf, lemma_reset_wf, lemma_subscription_created_wf,
    lemma_surroundings_wf,
};
use crate::keyboard::SupportedKeys;
use crate::matches::{
    lemma_counts_by_multiset, lemma_tally_len, slot_view, tally, window_view, MatchIndex,
};
use crate::model::{
    capped_sum, combo_points, counts_of, doubled, index_of, one_block, spend_helps, AppState,
    Position, DEFAULT_BASE_POINTS, DEFAULT_INITIAL_DURATION, DEFAULT_INITIAL_HELPS,
    DEFAULT_INITIAL_POINTS, DEFAULT_INITIAL_TRIES, DEFAULT_TOTAL_BLOCKS, GRID_SIZE,
    LEVEL_TRANSITION_MILLIS,
};
use crate::network::{
    generate_parachain_colors, palette_assigned, NetworkState, NetworkStateView, NetworkStatus,
    SubscriptionId,
};
use crate::support::SupportedRelayRuntime;
use crate::text::decimal_string;
use crate::window::{lemma_counts_of, lemma_find_block, lemma_help_target};

verus! {

/// What happens to the game: a block from the feed, or a command of the
/// player.
pub enum Msg {
    /// A subscription to a block feed has been set up.
    NetworkSubscriptionCreated(SubscriptionId),
    /// The feed has handed over a block under a subscription.
    NetworkDataReceived((SubscriptionId, Block)),
    /// The parachains of the chain are known.
    NetworkParachainsCollected(ParachainIds),
    /// The player has chosen a chain.
    NetworkChanged(SupportedRelayRuntime),
    /// A cell has been clicked.
    BlockClicked(usize),
    /// A cell has been committed.
    BlockPressed(usize),
    /// The animation of the cell that shows a block has ended.
    BlockAnimationEnded(BlockNumber),
    StartButtonClicked,
    HelpButtonClicked,
    LevelButtonClicked(GameLevel),
    InfoButtonClicked,
    MintButtonClicked,
    /// The game is to go on at a level.
    NextLevel(GameLevel),
    /// The pause before a level has run out.
    NextLevelTimeout(GameLevel),
    AccountsLoaded(Vec<Account>),
    AccountClicked(Account),
    SigningFinished(SigningStatus),
    KeyPressed(SupportedKeys),
}

/// What the game asks of its surroundings after an operation.
#[derive(Debug, Clone, Copy, PartialEq, Eq, Structural)]
pub enum Intent {
    Nothing,
    /// Hand `Msg::NextLevelTimeout(level)` to the game after `millis`
    /// milliseconds.
    ScheduleNextLevel { millis: u32, level: GameLevel },
}

/// How an operation ended.
#[derive(Debug, Clone, Copy, PartialEq, Eq, Structural)]
pub struct Outcome {
    /// Whether the board is to be drawn anew.
    pub render: bool,
    pub intent: Intent,
}

/// The intent to go on at `level` after the pause between levels.
pub open spec fn schedule(level: GameLevel) -> Intent {
    Intent::ScheduleNextLevel { millis: LEVEL_TRANSITION_MILLIS, level }
}

/// The game.
pub struct App {
    board_status: BoardStatus,
    previous_board_status: Option<BoardStatus>,
    network_state: NetworkState,
    blocks: Vec<Option<Block>>,
    match_position: Option<Position>,
    match_counter: u32,
    matches: MatchIndex,
    previous_match_block: Option<Block>,
    game_status: GameStatus,
    game_level: GameLevel,
    duration: u32,
    points: u32,
    previous_points: u32,
    tries: u32,
    helps: u32,
    game_help_status: GameHelpStatus,
    cursor_position: Position,
}

impl View for App {
    type V = AppState;

    closed spec fn view(&self) -> AppState {
        AppState {
            board_status: self.board_status,
            previous_board_status: self.previous_board_status,
            network_state: self.network_state@,
            blocks: window_view(self.blocks@),
            match_position: self.match_position,
            match_counter: self.match_counter,
            matches: self.matches@,
            previous_match_block: slot_view(self.previous_match_block),
            game_status: self.game_status,
            game_level: self.game_level,
            duration: self.duration,
            points: self.points,
            previous_points: self.previous_points,
            tries: self.tries,
            helps: self.helps,
            game_help_status: self.game_help_status,
            cursor_position: self.cursor_position,
        }
    }
}

/// The points of the match that brings the streak to `streak`.
fn combo_points_of(streak: u32) -> (points: u32)
    requires
        streak <= 16,
    ensures
        points == combo_points(streak as nat),
{
    let mut points: u32 = DEFAULT_BASE_POINTS;
    let mut n: u32 = 0;
    proof {
        lemma_doubled_monotonic(0, 16);
    }
    while n < streak
        invariant
            n <= streak <= 16,
            points == DEFAULT_BASE_POINTS * doubled(n as nat),
            doubled(n as nat) <= doubled(16),
            doubled(16) == 65536,
        decreases streak - n,
    {
        proof {
            lemma_doubled_monotonic((n + 1) as nat, 16);
        }
        points = points * 2;
        n = n + 1;
    }
    points
}

/// The powers of 2 do not fall, and the sixteenth is 65536.
proof fn lemma_doubled_monotonic(m: nat, n: nat)
    requires
        m <= n,
    ensures
        doubled(m) <= doubled(n),
        doubled(16) == 65536,
    decreases n,
{
    reveal_with_fuel(doubled, 17);
    if m < n {
        lemma_doubled_monotonic(m, (n - 1) as nat);
    }
}

impl App {
    /// What holds of every game.
    pub open spec fn wf(&self) -> bool {
        self@.wf()
    }

    /// A game on the chain `runtime`, before any feed is active.
    pub fn new(runtime: SupportedRelayRuntime) -> (app: Self)
        ensures
            app.wf(),
            app@ == AppState::initial(runtime),
    {
        proof {
            lemma_initial_wf(runtime);
        }
        Self {
            board_status: BoardStatus::Game,
            previous_board_status: None,
            network_state: NetworkState::new(runtime),
            blocks: new_window(),
            match_position: None,
            match_counter: 0,
            matches: MatchIndex::new(),
            previous_match_block: None,
            game_status: GameStatus::Init,
            game_level: GameLevel::Level1,
            duration: DEFAULT_INITIAL_DURATION,
            points: DEFAULT_INITIAL_POINTS,
            previous_points: DEFAULT_INITIAL_POINTS,
            tries: DEFAULT_INITIAL_TRIES,
            helps: DEFAULT_INITIAL_HELPS,
            game_help_status: GameHelpStatus::Available,
            cursor_position: (0, 0),
        }
    }

    pub fn board_status(&self) -> (status: BoardStatus)
        ensures
            status == self@.board_status,
    {
        self.board_status
    }

    pub fn previous_board_status(&self) -> (status: Option<BoardStatus>)
        ensures
            status == self@.previous_board_status,
    {
        self.previous_board_status
    }

    pub fn network_state(&self) -> (state: &NetworkState)
        ensures
            state@ == self@.network_state,
    {
        &self.network_state
    }

    /// The window, the newest block first.
    pub fn blocks(&self) -> (window: &Vec<Option<Block>>)
        ensures
            window_view(window@) == self@.blocks,
    {
        &self.blocks
    }

    pub fn match_position(&self) -> (position: Option<Position>)
        ensures
            position == self@.match_position,
    {
        self.match_position
    }

    pub fn match_counter(&self) -> (streak: u32)
        ensures
            streak == self@.match_counter,
    {
        self.match_counter
    }

    /// The pattern index.
    pub fn matches(&self) -> (index: &MatchIndex)
        ensures
            index@ == self@.matches,
    {
        &self.matches
    }

    pub fn previous_match_block(&self) -> (block: &Option<Block>)
        ensures
            slot_view(*block) == self@.previous_match_block,
    {
        &self.previous_match_block
    }

    pub fn game_status(&self) -> (status: GameStatus)
        ensures
            status == self@.game_status,
    {
        self.game_status
    }

    pub fn game_level(&self) -> (level: GameLevel)
        ensures
            level == self@.game_level,
    {
        self.game_level
    }

    pub fn duration(&self) -> (duration: u32)
        ensures
            duration == self@.duration,
    {
        self.duration
    }

    pub fn points(&self) -> (points: u32)
        ensures
            points == self@.points,
    {
        self.points
    }

    pub fn previous_points(&self) -> (points: u32)
        ensures
            points == self@.previous_points,
    {
        self.previous_points
    }

    pub fn tries(&self) -> (tries: u32)
        ensures
            tries == self@.tries,
    {
        self.tries
    }

    pub fn helps(&self) -> (helps: u32)
        ensures
            helps == self@.helps,
    {
        self.helps
    }

    pub fn game_help_status(&self) -> (status: GameHelpStatus)
        ensures
            status == self@.game_help_status,
    {
        self.game_help_status
    }

    pub fn cursor_position(&self) -> (position: Position)
        ensures
            position == self@.cursor_position,
    {
        self.cursor_position
    }

    /// Whether blocks and ticks count for a game.
    pub fn is_game_on(&self) -> (b: bool)
        ensures
            b == self@.is_game_on(),
    {
        match &self.game_status {
            GameStatus::On => true,
            GameStatus::MoveTo(_) => true,
            _ => false,
        }
    }

    pub fn is_game_over(&self) -> (b: bool)
        ensures
            b == self@.is_game_over(),
    {
        self.game_status == GameStatus::Over
    }

    pub fn is_help_on(&self) -> (b: bool)
        ensures
            b == self@.is_help_on(),
    {
        self.game_help_status.is_on()
    }

    /// Whether the points have just passed what completes `current_level`,
    /// the level that is played.
    pub fn is_next_level_available(&self, current_level: GameLevel) -> (b: bool)
        requires
            current_level is Level1,
        ensures
            b == self@.is_next_level_available(current_level),
    {
        self.game_level == current_level && self.previous_points
            < current_level.collected_points_per_level_minimum() && self.points
            >= current_level.collected_points_per_level_minimum()
    }

    /// Whether the points complete `game_level`.
    pub fn is_level_x_completed(&self, game_level: GameLevel) -> (b: bool)
        requires
            game_level is Level1,
        ensures
            b == (self@.points >= game_level.spec_points_minimum()),
    {
        self.points >= game_level.collected_points_per_level_minimum()
    }

    /// Whether help cannot be asked for: no game is on, help is on
    /// already, or the budget is used up.
    pub fn is_help_disabled(&self) -> (b: bool)
        ensures
            b == (!self@.is_game_on() || self@.is_help_on() || self@.helps == 0),
    {
        !self.is_game_on() || self.is_help_on() || self.helps == 0
    }

    /// Whether `level` cannot be chosen: it is played already; or, for the
    /// second level, the points do not complete the first; or, for the
    /// first level, no game is on.
    pub fn is_level_disabled(&self, level: GameLevel) -> (b: bool)
        ensures
            b == (self@.game_level == level || match level {
                GameLevel::Level1 => !self@.is_game_on(),
                GameLevel::Level2 => self@.points < GameLevel::Level1.spec_points_minimum(),
            }),
    {
        match level {
            GameLevel::Level1 => !self.is_game_on() || self.game_level == GameLevel::Level1,
            GameLevel::Level2 => !self.is_level_x_completed(GameLevel::Level1) || self.game_level
                == GameLevel::Level2,
        }
    }

    /// The slot of the cell under the cursor.
    pub fn get_cursor_index(&self) -> (index: usize)
        requires
            self.wf(),
        ensures
            index == self@.cursor_index(),
            index < DEFAULT_TOTAL_BLOCKS,
    {
        index_of_position(self.cursor_position)
    }

    /// The slot of the reference cell.
    pub fn get_match_index(&self) -> (index: Option<usize>)
        requires
            self.wf(),
        ensures
            match index {
                Some(i) => self@.match_index() == Some(i as int) && i < DEFAULT_TOTAL_BLOCKS,
                None => self@.match_index() is None,
            },
    {
        match self.match_position {
            Some(position) => Some(index_of_position(position)),
            None => None,
        }
    }

    /// A copy of the block of the reference cell.
    pub fn get_match_block(&self) -> (block: Option<Block>)
        requires
            self.wf(),
        ensures
            slot_view(block) == self@.match_block(),
    {
        match self.get_match_index() {
            Some(index) => match &self.blocks[index] {
                Some(block) => Some(block.clone()),
                None => None,
            },
            None => None,
        }
    }

    /// The number of the newest block, while playing.
    pub fn get_last_finalized_block_number(&self) -> (number: Option<u32>)
        requires
            self.wf(),
        ensures
            number == if self@.is_game_on() && self@.blocks[0] is Some {
                Some(self@.blocks[0]->0.block_number)
            } else {
                None
            },
    {
        if self.is_game_on() {
            if let Some(block) = &self.blocks[0] {
                return Some(block.block_number);
            }
        }
        None
    }

    /// The style class that tells which cell is the reference cell; empty
    /// where there is none.
    pub fn match_class(&self) -> (class: String)
        requires
            self.wf(),
        ensures
            class@ == self@.match_class(),
    {
        match self.get_match_index() {
            Some(index) => {
                let mut class = String::from_str("match__");
                let number = decimal_string(index as u64);
                class.append(number.as_str());
                class
            },
            None => String::new(),
        }
    }

    /// The result of the last game that ended: points, blocks played and
    /// the number of the reference block of its last wrong match.
    pub fn game_results(&self) -> (results: Option<String>)
        ensures
            match self@.game_results() {
                Some(text) => results matches Some(s) && s@ == text,
                None => results is None,
            },
    {
        match &self.previous_match_block {
            Some(block) => {
                let mut text = decimal_string(self.points as u64);
                text.append("/");
                let duration = decimal_string(self.duration as u64);
                text.append(duration.as_str());
                text.append("/");
                let number = decimal_string(block.block_number as u64);
                text.append(number.as_str());
                Some(text)
            },
            None => None,
        }
    }

    /// The message by which the result of the last game is shared.
    pub fn share_message(&self) -> (message: Option<String>)
        ensures
            match self@.share_message() {
                Some(text) => message matches Some(s) && s@ == text,
                None => message is None,
            },
    {
        match &self.previous_match_block {
            Some(block) => {
                let mut text = String::from_str("corematch.xyz ");
                match self.game_results() {
                    Some(results) => {
                        text.append(results.as_str());
                    },
                    None => {},
                }
                text.append(" 👀\n");
                text.append("\n");
                let tag = block.runtime.hashtag();
                text.append(tag.as_str());
                Some(text)
            },
            None => None,
        }
    }

    /// Counts the index anew from the window, at the level that is played.
    fn reindex(&mut self)
        requires
            old(self)@.blocks.len() == DEFAULT_TOTAL_BLOCKS,
        ensures
            final(self)@ == old(self)@.reindexed(),
    {
        self.matches.rebuild_for_level(self.game_level, &self.blocks);
        proof {
            let hashes = tally(self@.blocks, self@.game_level);
            lemma_tally_len(self@.blocks, self@.game_level);
            lemma_counts_of(hashes);
            lemma_counts_by_multiset(self.matches@, counts_of(hashes));
        }
    }

    /// Ends the match attempt under way, if there is one.
    pub fn reset_match_block(&mut self)
        requires
            old(self).wf(),
        ensures
            final(self).wf(),
            final(self)@ == old(self)@.reset_match_block(),
    {
        self.match_counter = 0;
        self.match_position = None;
    }

    /// Takes every mark off the blocks of the window.
    fn reset_blocks(&mut self)
        ensures
            final(self)@ == (AppState {
                blocks: crate::model::each_block(
                    old(self)@.blocks,
                    |i: int, block: BlockState| block.reset_class(),
                ),
                ..old(self)@
            }),
    {
        reset_window(&mut self.blocks);
    }

    /// Puts everything of a game back at its beginning, but the blocks of
    /// the window, which only lose their marks.
    pub fn reset(&mut self)
        requires
            old(self).wf(),
        ensures
            final(self).wf(),
            final(self)@ == old(self)@.reset(),
    {
        proof {
            lemma_reset_wf(self@);
        }
        self.reset_blocks();
        self.game_status = GameStatus::Ready;
        self.game_level = GameLevel::Level2;
        self.duration = DEFAULT_INITIAL_DURATION;
        self.points = DEFAULT_INITIAL_POINTS;
        self.previous_points = DEFAULT_INITIAL_POINTS;
        self.tries = DEFAULT_INITIAL_TRIES;
        self.helps = DEFAULT_INITIAL_HELPS;
        self.game_help_status = GameHelpStatus::Available;
        self.cursor_position = (0, 0);
        self.match_position = None;
        self.match_counter = 0;
        self.reindex();
    }

    /// Puts everything of a game back at its beginning and empties the
    /// window.
    pub fn full_reset(&mut self)
        requires
            old(self).wf(),
        ensures
            final(self).wf(),
            final(self)@ == old(self)@.full_reset(),
    {
        proof {
            lemma_reset_wf(self@);
        }
        self.reset();
        self.blocks = new_window();
        self.matches.clear();
    }

    /// Begins a new game at the first level, unless a game is on.
    pub fn start(&mut self)
        requires
            old(self).wf(),
        ensures
            final(self).wf(),
            final(self)@ == old(self)@.started(),
    {
        proof {
            lemma_reset_wf(self@);
        }
        if !self.is_game_on() {
            self.reset();
            self.previous_board_status = Some(self.board_status);
            self.board_status = BoardStatus::Game;
            self.game_status = GameStatus::On;
            self.game_level = GameLevel::Level1;
            self.reindex();
        }
    }

    /// Turns help on while playing, if it is available, and counts the
    /// index anew.
    pub fn start_help(&mut self)
        requires
            old(self).wf(),
        ensures
            final(self).wf(),
            final(self)@ == old(self)@.help_started(),
    {
        proof {
            lemma_next_level_wf(self@, GameLevel::Level1);
        }
        if self.is_game_on() && self.game_help_status.is_available() {
            self.game_help_status = GameHelpStatus::On;
            self.reindex();
        }
    }

    /// Takes the cursor's mark off the cell of slot `i`.
    pub fn unselect_block(&mut self, i: usize)
        requires
            old(self).wf(),
        ensures
            final(self).wf(),
            final(self)@ == (AppState {
                blocks: one_block(
                    old(self)@.blocks,
                    i as int,
                    |block: BlockState| block.unselected(),
                ),
                ..old(self)@
            }),
    {
        proof {
            crate::invariants::lemma_one_block_keeps_marks(
                self@.blocks,
                i as int,
                |block: BlockState| block.unselected(),
            );
        }
        unselect_at(&mut self.blocks, i);
        proof {
            crate::invariants::lemma_marks_keep_wf(old(self)@, self@);
        }
    }

    /// While playing, marks the cell of slot `i` as the one under the
    /// cursor.
    pub fn select_block(&mut self, i: usize)
        requires
            old(self).wf(),
        ensures
            final(self).wf(),
            final(self)@ == if old(self)@.is_game_on() {
                AppState {
                    blocks: one_block(
                        old(self)@.blocks,
                        i as int,
                        |block: BlockState| block.selected(),
                    ),
                    ..old(self)@
                }
            } else {
                old(self)@
            },
    {
        proof {
            crate::invariants::lemma_one_block_keeps_marks(
                self@.blocks,
                i as int,
                |block: BlockState| block.selected(),
            );
        }
        if self.is_game_on() {
            select_at(&mut self.blocks, i);
        }
        proof {
            crate::invariants::lemma_marks_keep_wf(old(self)@, self@);
        }
    }

    /// Puts the cursor at the cell of slot `i` of the board; marks are left
    /// as they are. A slot that the board does not have is refused.
    pub fn set_cursor_position(&mut self, i: usize)
        requires
            old(self).wf(),
        ensures
            final(self).wf(),
            final(self)@ == old(self)@.cursor_set(i as int),
    {
        proof {
            crate::invariants::lemma_marks_keep_wf(self@, self@.cursor_set(i as int));
        }
        if i < DEFAULT_TOTAL_BLOCKS as usize {
            self.cursor_position = ((i % (GRID_SIZE as usize)) as u8, (i / (GRID_SIZE as usize)) as u8);
        }
    }

    /// Makes the cell of slot `i` of the board the reference cell. A slot
    /// that the board does not have is refused.
    pub fn set_match_position(&mut self, i: usize)
        requires
            old(self).wf(),
        ensures
            final(self).wf(),
            final(self)@ == old(self)@.reference_set(i as int),
    {
        proof {
            crate::invariants::lemma_marks_keep_wf(self@, self@.reference_set(i as int));
        }
        if i < DEFAULT_TOTAL_BLOCKS as usize {
            self.match_position = Some(
                ((i % (GRID_SIZE as usize)) as u8, (i / (GRID_SIZE as usize)) as u8),
            );
        }
    }

    /// Takes a click on the cell of slot `i`: while playing, the cursor
    /// goes there, and the selection with it.
    pub fn click_block(&mut self, i: usize)
        requires
            old(self).wf(),
        ensures
            final(self).wf(),
            final(self)@ == old(self)@.clicked(i as int),
    {
        proof {
            lemma_clicked_wf(self@, i as int);
        }
        if self.is_game_on() && i < DEFAULT_TOTAL_BLOCKS as usize {
            let cursor_index = self.get_cursor_index();
            if cursor_index != i {
                unselect_at(&mut self.blocks, cursor_index);
            }
            self.cursor_position = ((i % (GRID_SIZE as usize)) as u8, (i / (GRID_SIZE as usize)) as u8);
            select_at(&mut self.blocks, i);
        }
    }

    /// While playing, sends the cursor to `new_position` if that is
    /// another place on the board.
    pub fn move_cursor(&mut self, new_position: Position)
        requires
            old(self).wf(),
        ensures
            final(self).wf(),
            final(self)@ == old(self)@.cursor_moved(new_position),
    {
        proof {
            lemma_cursor_moved_wf(self@, new_position);
        }
        if self.is_game_on() && (new_position.0 != self.cursor_position.0 || new_position.1
            != self.cursor_position.1) && new_position.0 < GRID_SIZE && new_position.1
            < GRID_SIZE {
            let i = self.get_cursor_index();
            unselect_at(&mut self.blocks, i);
            self.cursor_position = new_position;
            let i = index_of_position(new_position);
            select_at(&mut self.blocks, i);
        }
    }

    /// While playing, moves the cursor one place on in reading order.
    pub fn incr_cursor_position(&mut self)
        requires
            old(self).wf(),
        ensures
            final(self).wf(),
            final(self)@ == old(self)@.cursor_advanced(),
    {
        proof {
            lemma_cursor_advanced_wf(self@);
        }
        if self.is_game_on() {
            self.cursor_position = if self.cursor_position.0 < GRID_SIZE - 1 {
                (self.cursor_position.0 + 1, self.cursor_position.1)
            } else {
                if self.cursor_position.1 < GRID_SIZE - 1 {
                    (0, self.cursor_position.1 + 1)
                } else {
                    (0, 0)
                }
            };
        }
    }

    /// While playing, turns the cell under the cursor over to show the
    /// details of its block, unless it is being turned already.
    pub fn show_details(&mut self)
        requires
            old(self).wf(),
        ensures
            final(self).wf(),
            final(self)@ == old(self)@.details_shown(),
    {
        proof {
            lemma_details_shown_wf(self@);
        }
        if self.is_game_on() {
            let i = self.get_cursor_index();
            flip_at(&mut self.blocks, i);
        }
    }

    /// While playing, counts one block more.
    pub fn incr_duration(&mut self)
        requires
            old(self).wf(),
        ensures
            final(self).wf(),
            final(self)@ == old(self)@.ticked(),
    {
        if self.is_game_on() {
            self.duration = self.duration.saturating_add(1);
        }
    }

    /// Pays for `v` highlighted cells from the help budget. Help ends at
    /// the moment the budget is used up.
    pub fn decr_help_matches(&mut self, v: u32)
        requires
            old(self).wf(),
        ensures
            final(self).wf(),
            final(self)@ == (AppState {
                helps: spend_helps(old(self)@.helps, old(self)@.game_help_status, v as nat).0,
                game_help_status: spend_helps(
                    old(self)@.helps,
                    old(self)@.game_help_status,
                    v as nat,
                ).1,
                ..old(self)@
            }),
    {
        self.spend(v);
    }

    /// Takes `cells` from the help budget while help is on.
    fn spend(&mut self, cells: u32)
        ensures
            final(self)@ == (AppState {
                helps: spend_helps(old(self)@.helps, old(self)@.game_help_status, cells as nat).0,
                game_help_status: spend_helps(
                    old(self)@.helps,
                    old(self)@.game_help_status,
                    cells as nat,
                ).1,
                ..old(self)@
            }),
    {
        if self.is_help_on() && self.helps > 0 && cells > 0 {
            if cells >= self.helps {
                self.helps = 0;
                self.game_help_status = GameHelpStatus::NotAvailable;
            } else {
                self.helps = self.helps - cells;
            }
        }
    }

    /// Puts `block` in front of the window and counts it; the block that
    /// falls off the end leaves the count.
    fn receive(&mut self, block: Block)
        requires
            old(self).wf(),
            old(self)@.match_counter == 0,
        ensures
            final(self).wf(),
            final(self)@ == old(self)@.received(block@),
    {
        let ghost before = self@;
        let hash = block.corespace_hash(self.game_level);
        proof {
            lemma_received_wf(before, block@);
            lemma_count_bound(before, hash);
        }
        self.blocks.insert(0, Some(block));
        assert(window_view(self.blocks@) =~= seq![Some(block@)] + before.blocks);
        self.matches.on_block_inserted(hash);
        if self.blocks.len() > DEFAULT_TOTAL_BLOCKS as usize {
            if let Some(slot) = self.blocks.pop() {
                if let Some(oldest) = slot {
                    let gone = oldest.corespace_hash(self.game_level);
                    self.matches.on_block_evicted(gone);
                }
            }
        }
        assert(window_view(self.blocks@) =~= before.received(block@).blocks);
    }

    /// While playing with help on, highlights the pattern to show and pays
    /// for it from the help budget.
    fn highlight_matches(&mut self)
        requires
            old(self).wf(),
        ensures
            final(self)@ == old(self)@.helped(),
    {
        if self.is_game_on() && self.game_help_status.is_on() {
            let target = self.matches.last_above_threshold();
            proof {
                lemma_help_target(self@.matches, target);
            }
            match target {
                Some(hash) => {
                    let cells = highlight_window(&mut self.blocks, hash, self.game_level);
                    self.spend(cells);
                },
                None => {},
            }
        }
    }

    /// Takes in a block that the feed has handed over under subscription
    /// `subscription_id`. A block of another subscription than the active
    /// one is dropped. Otherwise the match attempt under way ends, the
    /// block goes in front of the window and the oldest falls off its end,
    /// with the index following; and while playing the cursor's cell is
    /// selected and no other, help highlights its pattern, and the
    /// duration grows by one.
    pub fn ingest_block(&mut self, subscription_id: SubscriptionId, block: Block)
        requires
            old(self).wf(),
        ensures
            final(self).wf(),
            final(self)@ == old(self)@.ingested(subscription_id, block@),
    {
        proof {
            lemma_ingested_wf(self@, subscription_id, block@);
        }
        if self.network_state.is_valid(subscription_id) {
            self.reset_match_block();
            self.receive(block);
            if self.is_game_on() {
                let cursor_index = self.get_cursor_index();
                focus_window(&mut self.blocks, cursor_index);
            }
            proof {
                let received = old(self)@.reset_match_block().received(block@);
                crate::invariants::lemma_focused_keeps_marks(
                    received.blocks,
                    received.cursor_index(),
                );
                crate::invariants::lemma_marks_keep_wf(received, received.refocused());
            }
            self.highlight_matches();
            if self.is_game_on() {
                self.duration = self.duration.saturating_add(1);
            }
        }
    }

    /// Counts a match: the streak grows by one and the points by the base
    /// points doubled once for each match of the streak.
    fn match_succeed(&mut self)
        requires
            old(self)@.match_counter < 16,
        ensures
            final(self)@ == (AppState {
                match_counter: (old(self)@.match_counter + 1) as u32,
                previous_points: old(self)@.points,
                points: capped_sum(
                    old(self)@.points,
                    combo_points((old(self)@.match_counter + 1) as nat),
                ),
                ..old(self)@
            }),
    {
        self.match_counter = self.match_counter + 1;
        self.incr_points();
    }

    /// Adds the points of the match that has brought the streak to where
    /// it is, and keeps the points there were before. The points stop at
    /// the most a counter can hold.
    fn incr_points(&mut self)
        requires
            old(self)@.match_counter <= 16,
        ensures
            final(self)@ == (AppState {
                previous_points: old(self)@.points,
                points: capped_sum(old(self)@.points, combo_points(old(self)@.match_counter as nat)),
                ..old(self)@
            }),
    {
        self.previous_points = self.points;
        self.points = self.points.saturating_add(combo_points_of(self.match_counter));
    }

    /// Spends a try; the game is over with the last.
    fn decr_tries(&mut self)
        ensures
            final(self)@ == (AppState {
                tries: if old(self)@.tries > 0 {
                    (old(self)@.tries - 1) as u32
                } else {
                    0
                },
                game_status: if old(self)@.tries == 1 {
                    GameStatus::Over
                } else {
                    old(self)@.game_status
                },
                ..old(self)@
            }),
    {
        if self.tries > 0 {
            self.tries = self.tries - 1;
            if self.tries == 0 {
                self.game_status = GameStatus::Over;
            }
        }
    }

    /// Commits the cell of slot `i`, and tells whether the board is to be
    /// drawn anew. Nothing happens unless a game is on and the cell shows
    /// a block that has not been matched. Without a reference cell, the
    /// cell under the cursor becomes the reference cell. A cell that shows
    /// the block of the reference cell calls the attempt off. Any other
    /// cell is compared with the reference cell by its hash: a match marks
    /// both and scores, a miss marks both, costs a try and ends the
    /// attempt, and with the last try the game.
    pub fn press_block(&mut self, i: usize) -> (render: bool)
        requires
            old(self).wf(),
        ensures
            final(self).wf(),
            final(self)@ == old(self)@.pressed(i as int),
            render == old(self)@.pressed_render(i as int),
    {
        let ghost before = self@;
        proof {
            lemma_pressed_wf(before, i as int);
        }
        if !self.is_game_on() || i >= self.blocks.len() {
            return true;
        }
        let level = self.game_level;
        let number = match &self.blocks[i] {
            None => {
                return true;
            },
            Some(block) => {
                if block.is_matched() || block.is_disabled() {
                    return false;
                }
                block.block_number
            },
        };
        let reference = match self.get_match_index() {
            Some(index) => match &self.blocks[index] {
                Some(block) => Some((index, block.block_number)),
                None => None,
            },
            None => None,
        };
        match reference {
            None => {
                self.match_position = Some(self.cursor_position);
                self.match_counter = 0;
                true
            },
            Some((index, reference_number)) => {
                if reference_number == number {
                    self.match_position = None;
                    return false;
                }
                let hash = self.blocks[i].as_ref().unwrap().corespace_hash(level);
                let reference_hash = self.blocks[index].as_ref().unwrap().corespace_hash(level);
                if reference_hash.0 == hash.0 && reference_hash.1 == hash.1 {
                    proof {
                        lemma_matched_wf(before, i as int);
                    }
                    match_at(&mut self.blocks, i);
                    match_at(&mut self.blocks, index);
                    self.matches.on_pair_matched(reference_hash);
                    self.match_succeed();
                    true
                } else {
                    miss_at(&mut self.blocks, i);
                    miss_at(&mut self.blocks, index);
                    self.decr_tries();
                    if self.is_game_over() {
                        self.previous_match_block = match &self.blocks[index] {
                            Some(block) => Some(block.clone()),
                            None => None,
                        };
                        let cursor_index = index_of_position(self.cursor_position);
                        unselect_at(&mut self.blocks, cursor_index);
                        self.board_status = BoardStatus::Options;
                    }
                    self.match_position = None;
                    true
                }
            },
        }
    }

    /// Sends a game that is on into the pause before `level`, with a fresh
    /// help budget, and asks for the pause to be timed.
    pub fn next_level(&mut self, level: GameLevel) -> (intent: Intent)
        requires
            old(self).wf(),
        ensures
            final(self).wf(),
            final(self)@ == old(self)@.next_level(level),
            intent == if old(self)@.game_status is On {
                schedule(level)
            } else {
                Intent::Nothing
            },
    {
        proof {
            lemma_next_level_wf(self@, level);
        }
        if self.game_status == GameStatus::On {
            self.game_status = GameStatus::MoveTo(level);
            self.helps = DEFAULT_INITIAL_HELPS;
            self.game_help_status = GameHelpStatus::Available;
            Intent::ScheduleNextLevel { millis: LEVEL_TRANSITION_MILLIS, level }
        } else {
            Intent::Nothing
        }
    }

    /// Ends the pause before `level`: the game is on at that level, with a
    /// fresh help budget and the index counted at that level. Without such
    /// a pause nothing happens.
    pub fn next_level_timeout(&mut self, level: GameLevel)
        requires
            old(self).wf(),
        ensures
            final(self).wf(),
            final(self)@ == old(self)@.next_level_timeout(level),
    {
        proof {
            lemma_next_level_wf(self@, level);
        }
        if self.game_status == GameStatus::MoveTo(level) {
            self.game_level = level;
            self.game_status = GameStatus::On;
            self.helps = DEFAULT_INITIAL_HELPS;
            self.game_help_status = GameHelpStatus::Available;
            self.reindex();
        }
    }

    /// Plays at `level` from now on, with the index counted at that level.
    pub fn choose_level(&mut self, level: GameLevel)
        requires
            old(self).wf(),
        ensures
            final(self).wf(),
            final(self)@ == old(self)@.level_chosen(level),
    {
        proof {
            lemma_next_level_wf(self@, level);
        }
        self.game_level = level;
        self.reindex();
    }

    /// Settles the cell that shows block `block_number` after its
    /// animation. A matched cell is disabled for good; and if the game is
    /// on at the first level and the last match took the points past what
    /// completes it, the game goes into the pause before the second level.
    /// Any other cell loses its passing marks.
    pub fn animation_ended(&mut self, block_number: BlockNumber) -> (intent: Intent)
        requires
            old(self).wf(),
        ensures
            final(self).wf(),
            final(self)@ == old(self)@.animation_ended(block_number),
            intent == if old(self)@.animation_levels_up(block_number) {
                schedule(GameLevel::Level2)
            } else {
                Intent::Nothing
            },
    {
        let ghost before = self@;
        let found = find_block_index(&self.blocks, block_number);
        proof {
            lemma_animation_ended_wf(before, block_number);
            lemma_find_block(
                before.blocks,
                block_number,
                match found {
                    Some(index) => Some(index as int),
                    None => None,
                },
            );
        }
        match found {
            Some(index) => {
                let was_matched = settle_at(&mut self.blocks, index);
                if was_matched && self.game_status == GameStatus::On
                    && self.is_next_level_available(GameLevel::Level1) {
                    self.game_status = GameStatus::MoveTo(GameLevel::Level2);
                    self.helps = DEFAULT_INITIAL_HELPS;
                    self.game_help_status = GameHelpStatus::Available;
                    Intent::ScheduleNextLevel {
                        millis: LEVEL_TRANSITION_MILLIS,
                        level: GameLevel::Level2,
                    }
                } else {
                    Intent::Nothing
                }
            },
            None => Intent::Nothing,
        }
    }

    /// Takes note that the player has chosen the chain `runtime`: an
    /// active feed switches over to it, and the game waits for the new
    /// feed.
    pub fn network_changed(&mut self, runtime: SupportedRelayRuntime)
        requires
            old(self).wf(),
        ensures
            final(self).wf(),
            final(self)@ == old(self)@.network_changed(runtime),
    {
        proof {
            lemma_surroundings_wf(self@, runtime, true);
        }
        if self.network_state.is_active() {
            self.network_state.status = NetworkStatus::Switching;
            self.network_state.runtime = runtime;
            self.game_status = GameStatus::Reload;
        }
    }

    /// Takes subscription `subscription_id` as the active one, and begins
    /// anew with an empty window.
    pub fn subscription_created(&mut self, subscription_id: SubscriptionId)
        requires
            old(self).wf(),
        ensures
            final(self).wf(),
            final(self)@ == old(self)@.subscription_created(subscription_id),
    {
        proof {
            lemma_subscription_created_wf(self@, subscription_id);
        }
        self.network_state.subscription_id = Some(subscription_id);
        self.network_state.status = NetworkStatus::Active;
        self.full_reset();
    }

    /// Gives the parachains `para_ids` their colours, drawn at random
    /// from a palette of as many colours. Nothing else changes.
    pub fn parachains_collected(&mut self, para_ids: ParachainIds)
        requires
            old(self).wf(),
        ensures
            final(self).wf(),
            final(self)@ == Self::recolored(old(self)@, final(self)@.network_state.parachain_colors),
            palette_assigned(para_ids@, final(self)@.network_state.parachain_colors),
    {
        self.network_state.parachain_colors = generate_parachain_colors(para_ids);
    }

    /// `state` with `colors` as the colours of the parachains.
    pub open spec fn recolored(
        state: AppState,
        colors: Map<crate::corespace::ParaId, crate::corespace::Color>,
    ) -> AppState {
        AppState {
            network_state: NetworkStateView { parachain_colors: colors, ..state.network_state },
            ..state
        }
    }

    /// Shows the page about the game, or what was shown before it.
    pub fn toggle_info(&mut self)
        requires
            old(self).wf(),
        ensures
            final(self).wf(),
            final(self)@ == old(self)@.info_toggled(),
    {
        if self.board_status == BoardStatus::About {
            if let Some(previous) = self.previous_board_status {
                self.board_status = previous;
            }
        } else {
            self.previous_board_status = Some(self.board_status);
            self.board_status = BoardStatus::About;
        }
    }

    /// Shows the accounts of the browser extension.
    pub fn accounts_loaded(&mut self)
        requires
            old(self).wf(),
        ensures
            final(self).wf(),
            final(self)@ == old(self)@.accounts_loaded(),
    {
        self.previous_board_status = Some(self.board_status);
        self.board_status = BoardStatus::Account;
    }

    /// Shows what was shown before the accounts.
    pub fn account_clicked(&mut self)
        requires
            old(self).wf(),
        ensures
            final(self).wf(),
            final(self)@ == old(self)@.account_clicked(),
    {
        if let Some(previous) = self.previous_board_status {
            self.board_status = previous;
        } else {
            self.board_status = BoardStatus::Game;
        }
    }

    /// Takes note of how the signing of a result ended: after a failure
    /// the game is over, to let the player decide what to do next.
    pub fn signing_finished(&mut self, status: SigningStatus)
        requires
            old(self).wf(),
        ensures
            final(self).wf(),
            final(self)@ == old(self)@.signing_finished(status is Failed),
    {
        match status {
            SigningStatus::Failed => {
                self.game_status = GameStatus::Over;
            },
            SigningStatus::Succeeded => {},
        }
    }

    /// The state after `msg`, for every message but that of the
    /// parachains, whose colours are drawn at random.
    pub open spec fn updated(state: AppState, msg: Msg) -> AppState {
        match msg {
            Msg::NetworkSubscriptionCreated(id) => state.subscription_created(id),
            Msg::NetworkDataReceived((id, block)) => state.ingested(id, block@),
            Msg::NetworkParachainsCollected(_) => state,
            Msg::NetworkChanged(runtime) => state.network_changed(runtime),
            Msg::BlockClicked(i) => state.clicked(i as int),
            Msg::BlockPressed(i) => state.pressed(i as int),
            Msg::BlockAnimationEnded(number) => state.animation_ended(number),
            Msg::StartButtonClicked => state.started(),
            Msg::HelpButtonClicked => state.help_started(),
            Msg::LevelButtonClicked(level) => state.level_chosen(level),
            Msg::InfoButtonClicked => state.info_toggled(),
            Msg::MintButtonClicked => state,
            Msg::NextLevel(level) => state.next_level(level),
            Msg::NextLevelTimeout(level) => state.next_level_timeout(level),
            Msg::AccountsLoaded(_) => state.accounts_loaded(),
            Msg::AccountClicked(_) => state.account_clicked(),
            Msg::SigningFinished(status) => state.signing_finished(status is Failed),
            Msg::KeyPressed(key) => state.key_pressed(key),
        }
    }

    /// How `msg` ends in `state`: whether the board is drawn anew, and
    /// what the game asks for.
    pub open spec fn outcome_of(state: AppState, msg: Msg) -> Outcome {
        Outcome {
            render: match msg {
                Msg::BlockPressed(i) => state.pressed_render(i as int),
                _ => true,
            },
            intent: match msg {
                Msg::BlockAnimationEnded(number) => if state.animation_levels_up(number) {
                    schedule(GameLevel::Level2)
                } else {
                    Intent::Nothing
                },
                Msg::NextLevel(level) => if state.game_status is On {
                    schedule(level)
                } else {
                    Intent::Nothing
                },
                _ => Intent::Nothing,
            },
        }
    }

    /// Handles one message to its end, and tells how it ended.
    pub fn update(&mut self, msg: Msg) -> (outcome: Outcome)
        requires
            old(self).wf(),
        ensures
            final(self).wf(),
            outcome == Self::outcome_of(old(self)@, msg),
            match msg {
                Msg::NetworkParachainsCollected(para_ids) => {
                    &&& final(self)@ == Self::recolored(
                        old(self)@,
                        final(self)@.network_state.parachain_colors,
                    )
                    &&& palette_assigned(para_ids@, final(self)@.network_state.parachain_colors)
                },
                _ => final(self)@ == Self::updated(old(self)@, msg),
            },
    {
        let mut outcome = Outcome { render: true, intent: Intent::Nothing };
        match msg {
            Msg::NetworkSubscriptionCreated(subscription_id) => {
                self.subscription_created(subscription_id);
            },
            Msg::NetworkDataReceived((subscription_id, block)) => {
                self.ingest_block(subscription_id, block);
            },
            Msg::NetworkParachainsCollected(para_ids) => {
                self.parachains_collected(para_ids);
            },
            Msg::NetworkChanged(runtime) => {
                self.network_changed(runtime);
            },
            Msg::BlockClicked(i) => {
                self.click_block(i);
            },
            Msg::BlockPressed(i) => {
                outcome.render = self.press_block(i);
            },
            Msg::BlockAnimationEnded(block_number) => {
                outcome.intent = self.animation_ended(block_number);
            },
            Msg::StartButtonClicked => {
                self.start();
            },
            Msg::HelpButtonClicked => {
                self.start_help();
            },
            Msg::LevelButtonClicked(game_level) => {
                self.choose_level(game_level);
            },
            Msg::InfoButtonClicked => {
                self.toggle_info();
            },
            Msg::MintButtonClicked => {},
            Msg::NextLevel(next_level) => {
                outcome.intent = self.next_level(next_level);
            },
            Msg::NextLevelTimeout(next_level) => {
                self.next_level_timeout(next_level);
            },
            Msg::AccountsLoaded(_) => {
                self.accounts_loaded();
            },
            Msg::AccountClicked(_) => {
                self.account_clicked();
            },
            Msg::SigningFinished(status) => {
                self.signing_finished(status);
            },
            Msg::KeyPressed(key) => {
                self.key_pressed(key);
            },
        }
        outcome
    }

    /// Answers to a key.
    pub fn key_pressed(&mut self, key: SupportedKeys)
        requires
            old(self).wf(),
        ensures
            final(self).wf(),
            final(self)@ == old(self)@.key_pressed(key),
    {
        proof {
            lemma_key_pressed_wf(self@, key);
            lemma_moved_on_grid(self@.cursor_position, key);
        }
        let (x, y) = self.cursor_position;
        let edge: u8 = GRID_SIZE - 1;
        match key {
            SupportedKeys::Enter => {
                if !self.is_game_on() {
                    self.start();
                } else {
                    let i = self.get_cursor_index();
                    self.press_block(i);
                }
            },
            SupportedKeys::Space => {
                if self.is_game_on() {
                    let i = self.get_cursor_index();
                    self.press_block(i);
                }
            },
            SupportedKeys::Up => {
                if y == 0 {
                    self.move_cursor((x, edge));
                } else {
                    self.move_cursor((x, y - 1));
                }
            },
            SupportedKeys::Down => {
                if y == edge {
                    self.move_cursor((x, 0));
                } else {
                    self.move_cursor((x, y + 1));
                }
            },
            SupportedKeys::Left => {
                if x == 0 {
                    self.move_cursor((edge, y));
                } else {
                    self.move_cursor((x - 1, y));
                }
            },
            SupportedKeys::Right => {
                if x == edge {
                    self.move_cursor((0, y));
                } else {
                    self.move_cursor((x + 1, y));
                }
            },
            SupportedKeys::S => {
                self.start();
            },
            SupportedKeys::H => {
                self.start_help();
            },
            SupportedKeys::F => {
                self.show_details();
            },
            SupportedKeys::NotSupported => {},
        }
    }
}

/// The slot of the cell at `position`.
fn index_of_position(position: Position) -> (index: usize)
    ensures
        index == index_of(position),
{
    let side: usize = GRID_SIZE as usize;
    assert(side == 3);
    (position.1 as usize) * side + (position.0 as usize)
}

} // verus!
