use corematch::app::{App, Intent, Msg, Outcome};
use corematch::block::Block;
use corematch::corespace::Core;
use corematch::game::{BoardStatus, GameHelpStatus, GameLevel, GameStatus};
use corematch::keyboard::SupportedKeys;
use corematch::network::NetworkStatus;
use corematch::support::SupportedRelayRuntime;

const SUBSCRIPTION: u32 = 7;

/// A block of four cores that are occupied as `mask` says.
fn block_with(number: u32, mask: [bool; 4]) -> Block {
    let mut corespace = Vec::new();
    for (i, occupied) in mask.iter().enumerate() {
        let para_id = if *occupied { Some(1000 + i as u32) } else { None };
        corespace.push(Core::new(i, para_id));
    }
    Block::new(number, corespace, SupportedRelayRuntime::Polkadot)
}

const A: [bool; 4] = [true, false, false, false];
const B: [bool; 4] = [false, true, false, false];
const C: [bool; 4] = [true, true, false, false];
const D: [bool; 4] = [false, false, true, false];
const E: [bool; 4] = [true, false, true, false];
const F: [bool; 4] = [false, true, true, false];
const G: [bool; 4] = [true, true, true, false];
const H: [bool; 4] = [false, false, false, true];

/// A game that is on, with an active subscription and an empty window.
fn game_on() -> App {
    let mut app = App::new(SupportedRelayRuntime::Polkadot);
    app.update(Msg::NetworkSubscriptionCreated(SUBSCRIPTION));
    app.update(Msg::StartButtonClicked);
    app
}

/// Hands the blocks with the given masks to the game, numbered from 100.
fn feed(app: &mut App, masks: &[[bool; 4]]) {
    for (i, mask) in masks.iter().enumerate() {
        let block = block_with(100 + i as u32, *mask);
        app.update(Msg::NetworkDataReceived((SUBSCRIPTION, block)));
    }
}

/// Picks the cell of slot `reference` as the reference cell and commits
/// the cell of slot `target` against it.
fn attempt(app: &mut App, reference: usize, target: usize) -> Outcome {
    app.update(Msg::BlockClicked(reference));
    app.update(Msg::BlockPressed(reference));
    app.update(Msg::BlockClicked(target));
    app.update(Msg::BlockPressed(target))
}

fn block_at(app: &App, slot: usize) -> &Block {
    app.blocks()[slot].as_ref().unwrap()
}

#[test]
fn new_game_waits_for_a_feed() {
    let app = App::new(SupportedRelayRuntime::Kusama);
    assert_eq!(app.game_status(), GameStatus::Init);
    assert_eq!(app.game_level(), GameLevel::Level1);
    assert_eq!(app.board_status(), BoardStatus::Game);
    assert_eq!(app.previous_board_status(), None);
    assert_eq!(app.blocks().len(), 9);
    assert!(app.blocks().iter().all(|slot| slot.is_none()));
    assert_eq!(app.points(), 0);
    assert_eq!(app.previous_points(), 0);
    assert_eq!(app.duration(), 0);
    assert_eq!(app.tries(), 4);
    assert_eq!(app.helps(), 8);
    assert_eq!(app.game_help_status(), GameHelpStatus::Available);
    assert_eq!(app.cursor_position(), (0, 0));
    assert_eq!(app.match_position(), None);
    assert_eq!(app.match_counter(), 0);
    assert!(app.previous_match_block().is_none());
    assert_eq!(app.network_state().status, NetworkStatus::Initializing);
    assert_eq!(app.network_state().runtime, SupportedRelayRuntime::Kusama);
    assert_eq!(app.network_state().subscription_id, None);
    assert!(!app.is_game_on());
    assert!(!app.is_game_over());
    assert!(!app.is_help_on());
}

#[test]
fn subscription_makes_the_game_ready() {
    let mut app = App::new(SupportedRelayRuntime::Polkadot);
    let outcome = app.update(Msg::NetworkSubscriptionCreated(SUBSCRIPTION));
    assert_eq!(outcome, Outcome { render: true, intent: Intent::Nothing });
    assert_eq!(app.game_status(), GameStatus::Ready);
    assert_eq!(app.game_level(), GameLevel::Level2);
    assert_eq!(app.network_state().status, NetworkStatus::Active);
    assert_eq!(app.network_state().subscription_id, Some(SUBSCRIPTION));
    assert!(app.network_state().is_valid(SUBSCRIPTION));
    assert!(!app.network_state().is_valid(SUBSCRIPTION + 1));
}

#[test]
fn window_keeps_nine_slots_and_drops_the_oldest_first() {
    let mut app = game_on();
    feed(&mut app, &[A, B, C]);
    assert_eq!(app.blocks().len(), 9);
    assert_eq!(block_at(&app, 0).block_number, 102);
    assert_eq!(block_at(&app, 1).block_number, 101);
    assert_eq!(block_at(&app, 2).block_number, 100);
    assert!(app.blocks()[3].is_none());
    feed(&mut app, &[D, E, F, G, H, A, B]);
    assert_eq!(app.blocks().len(), 9);
    // ten blocks came in: 100, 101, 102, and then 100 to 106 again
    let numbers: Vec<u32> = app.blocks().iter().map(|slot| slot.as_ref().unwrap().block_number).collect();
    assert_eq!(numbers, vec![106, 105, 104, 103, 102, 101, 100, 102, 101]);
}

#[test]
fn window_drops_by_arrival_not_by_number() {
    let mut app = game_on();
    // the block with the highest number comes first and leaves first
    app.update(Msg::NetworkDataReceived((SUBSCRIPTION, block_with(999, A))));
    for n in 0..8 {
        app.update(Msg::NetworkDataReceived((SUBSCRIPTION, block_with(n, B))));
    }
    assert_eq!(block_at(&app, 8).block_number, 999);
    app.update(Msg::NetworkDataReceived((SUBSCRIPTION, block_with(8, C))));
    assert_eq!(block_at(&app, 8).block_number, 0);
    assert!(app.blocks().iter().all(|slot| slot.as_ref().unwrap().block_number != 999));
}

#[test]
fn index_counts_the_blocks_of_the_window() {
    let mut app = game_on();
    feed(&mut app, &[A, B, A, C]);
    let a = block_with(0, A).corespace_hash(GameLevel::Level1);
    let b = block_with(0, B).corespace_hash(GameLevel::Level1);
    let h = block_with(0, H).corespace_hash(GameLevel::Level1);
    assert_eq!(app.matches().count(a), 2);
    assert_eq!(app.matches().count(b), 1);
    assert_eq!(app.matches().count(h), 0);
    assert_eq!(app.matches().matched_hashes_above_threshold(), vec![a]);
    // the two blocks with pattern A fall off the end one after the other
    feed(&mut app, &[D, D, D, D, D, D]);
    assert_eq!(app.matches().count(a), 1);
    feed(&mut app, &[D, D]);
    assert_eq!(app.matches().count(a), 0);
    assert_eq!(app.matches().count(b), 0);
    assert_eq!(app.matches().matched_hashes_above_threshold(), vec![block_with(0, D).corespace_hash(GameLevel::Level1)]);
}

#[test]
fn stale_subscription_changes_nothing() {
    let mut app = game_on();
    feed(&mut app, &[A, B]);
    app.update(Msg::BlockClicked(1));
    app.update(Msg::BlockPressed(1));
    let numbers: Vec<Option<u32>> = app.blocks().iter().map(|slot| slot.as_ref().map(|b| b.block_number)).collect();
    let outcome = app.update(Msg::NetworkDataReceived((SUBSCRIPTION + 1, block_with(500, C))));
    assert_eq!(outcome, Outcome { render: true, intent: Intent::Nothing });
    let after: Vec<Option<u32>> = app.blocks().iter().map(|slot| slot.as_ref().map(|b| b.block_number)).collect();
    assert_eq!(numbers, after);
    assert_eq!(app.duration(), 2);
    assert_eq!(app.match_position(), Some((1, 0)));
    assert_eq!(app.cursor_position(), (1, 0));
    assert_eq!(app.matches().count(block_with(0, C).corespace_hash(GameLevel::Level1)), 0);
    // a block of the active subscription ends the attempt under way
    app.update(Msg::NetworkDataReceived((SUBSCRIPTION, block_with(501, C))));
    assert_eq!(app.match_position(), None);
    assert_eq!(app.duration(), 3);
}

#[test]
fn blocks_before_a_subscription_are_dropped() {
    let mut app = App::new(SupportedRelayRuntime::Polkadot);
    app.update(Msg::NetworkDataReceived((SUBSCRIPTION, block_with(1, A))));
    assert!(app.blocks().iter().all(|slot| slot.is_none()));
}

#[test]
fn duration_counts_blocks_while_playing_only() {
    let mut app = App::new(SupportedRelayRuntime::Polkadot);
    app.update(Msg::NetworkSubscriptionCreated(SUBSCRIPTION));
    feed(&mut app, &[A, B]);
    assert_eq!(app.duration(), 0);
    assert!(!block_at(&app, 0).is_selected());
    app.update(Msg::StartButtonClicked);
    feed(&mut app, &[C]);
    assert_eq!(app.duration(), 1);
    assert_eq!(app.get_last_finalized_block_number(), Some(100));
}

#[test]
fn ingest_selects_the_cursor_cell_and_no_other() {
    let mut app = game_on();
    feed(&mut app, &[A, B, C]);
    app.update(Msg::BlockClicked(1));
    feed(&mut app, &[D]);
    for (i, slot) in app.blocks().iter().enumerate() {
        if let Some(block) = slot {
            assert_eq!(block.is_selected(), i == 1);
        }
    }
    assert_eq!(block_at(&app, 1).selected_class.as_deref(), Some("highlight"));
}

#[test]
fn end_to_end_scenario() {
    let mut app = game_on();
    feed(&mut app, &[A, B, A, C, D, E, F, G, H]);
    let a = block_with(0, A).corespace_hash(GameLevel::Level1);
    assert_eq!(app.matches().count(a), 2);
    // the first A stands in the last slot, the second two slots before it
    assert_eq!(block_at(&app, 8).block_number, 100);
    assert_eq!(block_at(&app, 6).block_number, 102);
    let outcome = attempt(&mut app, 8, 6);
    assert_eq!(outcome, Outcome { render: true, intent: Intent::Nothing });
    assert!(block_at(&app, 8).is_matched());
    assert!(block_at(&app, 6).is_matched());
    assert_eq!(block_at(&app, 6).matched_class.as_deref(), Some("matched"));
    assert_eq!(app.points(), 8);
    assert_eq!(app.previous_points(), 0);
    assert_eq!(app.tries(), 4);
    assert_eq!(app.match_counter(), 1);
    assert_eq!(app.matches().count(a), 0);
    assert_eq!(app.game_status(), GameStatus::On);
}

#[test]
fn combo_scaling_doubles_the_points_of_each_match() {
    let mut app = game_on();
    feed(&mut app, &[A, A, A, A, B]);
    // slots: 0 = B, 1..4 = A; the reference cell is slot 4
    app.update(Msg::BlockClicked(4));
    app.update(Msg::BlockPressed(4));
    assert_eq!(app.match_position(), Some((1, 1)));
    app.update(Msg::BlockPressed(3));
    assert_eq!(app.points(), 8);
    app.update(Msg::BlockPressed(2));
    assert_eq!(app.points(), 8 + 16);
    assert_eq!(app.previous_points(), 8);
    app.update(Msg::BlockPressed(1));
    assert_eq!(app.points(), 8 + 16 + 32);
    assert_eq!(app.previous_points(), 24);
    assert_eq!(app.match_counter(), 3);
    // the reference cell stays through the streak
    assert_eq!(app.match_position(), Some((1, 1)));
    assert_eq!(app.tries(), 4);
}

#[test]
fn new_reference_pick_resets_the_streak() {
    let mut app = game_on();
    feed(&mut app, &[A, A, B, B]);
    // slots: 0 and 1 = B, 2 and 3 = A
    assert!(attempt(&mut app, 3, 2).render);
    assert_eq!(app.points(), 8);
    assert_eq!(app.match_counter(), 1);
    assert_eq!(app.match_position(), Some((0, 1)));
    // the reference cell is matched now: committing it again does nothing
    assert!(!app.update(Msg::BlockPressed(3)).render);
    assert_eq!(app.match_position(), Some((0, 1)));
    // a new block ends the attempt
    app.update(Msg::NetworkDataReceived((SUBSCRIPTION, block_with(200, C))));
    assert_eq!(app.match_position(), None);
    assert_eq!(app.match_counter(), 0);
    // slots: 0 = C, 1 and 2 = B, 3 and 4 = A
    attempt(&mut app, 1, 2);
    assert_eq!(app.points(), 16);
    assert_eq!(app.previous_points(), 8);
    assert_eq!(app.match_counter(), 1);
}

#[test]
fn miss_breaks_the_streak() {
    let mut app = game_on();
    feed(&mut app, &[A, A, A, B, B]);
    // slots: 0 and 1 = B, 2, 3 and 4 = A
    attempt(&mut app, 4, 3);
    assert_eq!(app.points(), 8);
    app.update(Msg::BlockPressed(0));
    assert_eq!(app.tries(), 3);
    assert_eq!(app.match_position(), None);
    // the next pick begins a streak of its own
    assert!(attempt(&mut app, 1, 0).render);
    assert_eq!(app.points(), 16);
    assert_eq!(app.match_counter(), 1);
}

#[test]
fn committing_the_reference_cell_calls_the_attempt_off() {
    let mut app = game_on();
    feed(&mut app, &[A, B]);
    app.update(Msg::BlockClicked(0));
    let picked = app.update(Msg::BlockPressed(0));
    assert!(picked.render);
    assert_eq!(app.match_position(), Some((0, 0)));
    assert_eq!(app.match_class(), "match__0");
    let cancelled = app.update(Msg::BlockPressed(0));
    assert!(!cancelled.render);
    assert_eq!(app.match_position(), None);
    assert_eq!(app.match_class(), "");
    assert_eq!(app.points(), 0);
    assert_eq!(app.tries(), 4);
}

#[test]
fn tries_run_out_on_the_fourth_miss() {
    let mut app = game_on();
    feed(&mut app, &[A, B, C, D, E]);
    // slots: 0 = E, 1 = D, 2 = C, 3 = B, 4 = A
    for (n, target) in [3usize, 2, 1].iter().enumerate() {
        attempt(&mut app, 4, *target);
        assert_eq!(app.tries(), 3 - n as u32);
        assert_eq!(app.game_status(), GameStatus::On);
        assert_eq!(app.match_position(), None);
        assert!(block_at(&app, *target).missed_class.is_some());
        assert!(block_at(&app, 4).missed_class.is_some());
    }
    assert!(app.game_results().is_none());
    attempt(&mut app, 4, 0);
    assert_eq!(app.tries(), 0);
    assert_eq!(app.game_status(), GameStatus::Over);
    assert!(app.is_game_over());
    assert!(!app.is_game_on());
    assert_eq!(app.board_status(), BoardStatus::Options);
    assert_eq!(app.match_position(), None);
    assert_eq!(app.points(), 0);
    assert_eq!(app.previous_match_block().as_ref().unwrap().block_number, 100);
    assert!(!block_at(&app, 0).is_selected());
    assert_eq!(app.game_results().unwrap(), "0/5/100");
    assert_eq!(
        app.share_message().unwrap(),
        "corematch.xyz 0/5/100 👀\n\n@Polkadot #BuildOnPolkadot"
    );
}

#[test]
fn commands_are_ignored_when_no_game_is_on() {
    let mut app = App::new(SupportedRelayRuntime::Polkadot);
    app.update(Msg::NetworkSubscriptionCreated(SUBSCRIPTION));
    feed(&mut app, &[A, A]);
    assert!(app.update(Msg::BlockPressed(0)).render);
    app.update(Msg::BlockClicked(1));
    app.update(Msg::KeyPressed(SupportedKeys::Down));
    app.update(Msg::KeyPressed(SupportedKeys::Space));
    app.update(Msg::HelpButtonClicked);
    assert_eq!(app.match_position(), None);
    assert_eq!(app.cursor_position(), (0, 0));
    assert_eq!(app.game_help_status(), GameHelpStatus::Available);
    assert!(!block_at(&app, 1).is_selected());
}

#[test]
fn matched_cells_cannot_be_committed_again() {
    let mut app = game_on();
    feed(&mut app, &[A, A, A]);
    attempt(&mut app, 2, 1);
    assert_eq!(app.points(), 8);
    let again = app.update(Msg::BlockPressed(1));
    assert!(!again.render);
    assert_eq!(app.points(), 8);
    assert_eq!(app.match_counter(), 1);
    // empty slots and slots off the board are ignored too
    assert!(app.update(Msg::BlockPressed(7)).render);
    assert!(app.update(Msg::BlockPressed(70)).render);
    assert_eq!(app.points(), 8);
}

#[test]
fn cursor_wraps_round_the_board() {
    let mut app = game_on();
    app.update(Msg::KeyPressed(SupportedKeys::Up));
    assert_eq!(app.cursor_position(), (0, 2));
    app.update(Msg::KeyPressed(SupportedKeys::Left));
    assert_eq!(app.cursor_position(), (2, 2));
    app.update(Msg::KeyPressed(SupportedKeys::Down));
    assert_eq!(app.cursor_position(), (2, 0));
    app.update(Msg::KeyPressed(SupportedKeys::Right));
    assert_eq!(app.cursor_position(), (0, 0));
    app.update(Msg::KeyPressed(SupportedKeys::Right));
    app.update(Msg::KeyPressed(SupportedKeys::Down));
    assert_eq!(app.cursor_position(), (1, 1));
    assert_eq!(app.get_cursor_index(), 4);
    app.update(Msg::KeyPressed(SupportedKeys::Up));
    assert_eq!(app.cursor_position(), (1, 0));
    app.update(Msg::KeyPressed(SupportedKeys::Left));
    assert_eq!(app.cursor_position(), (0, 0));
}

#[test]
fn cursor_moves_the_selection() {
    let mut app = game_on();
    feed(&mut app, &[A, B, C, D, E]);
    assert!(block_at(&app, 0).is_selected());
    app.update(Msg::BlockClicked(4));
    assert_eq!(app.cursor_position(), (1, 1));
    assert!(block_at(&app, 4).is_selected());
    assert!(!block_at(&app, 0).is_selected());
    app.move_cursor((0, 1));
    assert_eq!(app.get_cursor_index(), 3);
    assert!(block_at(&app, 3).is_selected());
    assert!(!block_at(&app, 4).is_selected());
    // places off the board and slots off the window are refused
    app.move_cursor((3, 0));
    assert_eq!(app.cursor_position(), (0, 1));
    app.update(Msg::BlockClicked(9));
    assert_eq!(app.cursor_position(), (0, 1));
    app.incr_cursor_position();
    assert_eq!(app.cursor_position(), (1, 1));
    app.incr_cursor_position();
    app.incr_cursor_position();
    assert_eq!(app.cursor_position(), (0, 2));
    app.move_cursor((2, 2));
    app.incr_cursor_position();
    assert_eq!(app.cursor_position(), (0, 0));
}

#[test]
fn enter_starts_a_game_and_commits_cells() {
    let mut app = App::new(SupportedRelayRuntime::Polkadot);
    app.update(Msg::NetworkSubscriptionCreated(SUBSCRIPTION));
    app.update(Msg::KeyPressed(SupportedKeys::Enter));
    assert_eq!(app.game_status(), GameStatus::On);
    assert_eq!(app.game_level(), GameLevel::Level1);
    assert_eq!(app.previous_board_status(), Some(BoardStatus::Game));
    feed(&mut app, &[A, A]);
    app.update(Msg::KeyPressed(SupportedKeys::Enter));
    assert_eq!(app.match_position(), Some((0, 0)));
    app.update(Msg::KeyPressed(SupportedKeys::Right));
    app.update(Msg::KeyPressed(SupportedKeys::Space));
    assert_eq!(app.points(), 8);
    app.update(Msg::KeyPressed(SupportedKeys::NotSupported));
    assert_eq!(app.points(), 8);
}

#[test]
fn level_two_opens_once_when_the_points_pass_the_minimum() {
    let mut app = game_on();
    feed(&mut app, &[A, A, A, A]);
    app.update(Msg::BlockClicked(3));
    app.update(Msg::BlockPressed(3));
    app.update(Msg::BlockPressed(2));
    // 8 points: the animation of a matched cell does not open the level
    let early = app.update(Msg::BlockAnimationEnded(101));
    assert_eq!(early.intent, Intent::Nothing);
    assert!(block_at(&app, 2).is_disabled());
    assert!(!block_at(&app, 2).is_matched());
    assert_eq!(app.game_status(), GameStatus::On);
    app.update(Msg::BlockPressed(1));
    assert_eq!(app.points(), 24);
    assert_eq!(app.update(Msg::BlockAnimationEnded(102)).intent, Intent::Nothing);
    app.update(Msg::BlockPressed(0));
    assert_eq!(app.points(), 56);
    assert_eq!(app.previous_points(), 24);
    assert!(app.is_next_level_available(GameLevel::Level1));
    assert!(app.is_level_x_completed(GameLevel::Level1));
    // a cell that was not matched only loses its passing marks
    app.update(Msg::HelpButtonClicked);
    let outcome = app.update(Msg::BlockAnimationEnded(103));
    assert_eq!(
        outcome.intent,
        Intent::ScheduleNextLevel { millis: 6000, level: GameLevel::Level2 }
    );
    assert_eq!(app.game_status(), GameStatus::MoveTo(GameLevel::Level2));
    assert_eq!(app.game_level(), GameLevel::Level1);
    assert_eq!(app.helps(), 8);
    assert_eq!(app.game_help_status(), GameHelpStatus::Available);
    assert!(app.is_game_on());
    // the animation of the reference cell ends too, and opens nothing again
    let again = app.update(Msg::BlockAnimationEnded(100));
    assert_eq!(again.intent, Intent::Nothing);
    assert_eq!(app.game_status(), GameStatus::MoveTo(GameLevel::Level2));
    // blocks still come in during the pause
    feed(&mut app, &[B]);
    assert_eq!(app.duration(), 5);
    app.update(Msg::NextLevelTimeout(GameLevel::Level2));
    assert_eq!(app.game_status(), GameStatus::On);
    assert_eq!(app.game_level(), GameLevel::Level2);
    // at the second level no animation opens a level
    assert_eq!(app.update(Msg::BlockAnimationEnded(101)).intent, Intent::Nothing);
    assert_eq!(app.game_status(), GameStatus::On);
}

#[test]
fn flat_points_do_not_open_the_level_again() {
    let mut app = game_on();
    feed(&mut app, &[A, A, A, A, A, A]);
    app.update(Msg::BlockClicked(5));
    app.update(Msg::BlockPressed(5));
    for target in [4usize, 3, 2, 1] {
        app.update(Msg::BlockPressed(target));
    }
    // 8 + 16 + 32 + 64: the last match began above the minimum
    assert_eq!(app.points(), 120);
    assert_eq!(app.previous_points(), 56);
    assert!(!app.is_next_level_available(GameLevel::Level1));
    assert_eq!(app.update(Msg::BlockAnimationEnded(101)).intent, Intent::Nothing);
    assert_eq!(app.game_status(), GameStatus::On);
}

#[test]
fn animation_of_an_unmatched_cell_clears_its_marks() {
    let mut app = game_on();
    feed(&mut app, &[A, B]);
    attempt(&mut app, 1, 0);
    assert!(block_at(&app, 0).missed_class.is_some());
    app.update(Msg::BlockAnimationEnded(101));
    assert!(block_at(&app, 0).missed_class.is_none());
    assert!(block_at(&app, 1).missed_class.is_some());
    // a number that no block of the window has changes nothing
    assert_eq!(app.update(Msg::BlockAnimationEnded(4000)).intent, Intent::Nothing);
    assert!(block_at(&app, 1).missed_class.is_some());
}

#[test]
fn level_pause_is_asked_for_by_message_too() {
    let mut app = game_on();
    let outcome = app.update(Msg::NextLevel(GameLevel::Level2));
    assert_eq!(
        outcome,
        Outcome {
            render: true,
            intent: Intent::ScheduleNextLevel { millis: 6000, level: GameLevel::Level2 },
        }
    );
    assert_eq!(app.game_status(), GameStatus::MoveTo(GameLevel::Level2));
    // a pause for another level does not end this one
    app.update(Msg::NextLevelTimeout(GameLevel::Level1));
    assert_eq!(app.game_status(), GameStatus::MoveTo(GameLevel::Level2));
    // and no second pause begins within the pause
    assert_eq!(app.update(Msg::NextLevel(GameLevel::Level1)).intent, Intent::Nothing);
    app.update(Msg::NextLevelTimeout(GameLevel::Level2));
    assert_eq!(app.game_status(), GameStatus::On);
    assert_eq!(app.game_level(), GameLevel::Level2);
    // without a game no pause begins
    let mut idle = App::new(SupportedRelayRuntime::Polkadot);
    assert_eq!(idle.update(Msg::NextLevel(GameLevel::Level2)).intent, Intent::Nothing);
    assert_eq!(idle.game_status(), GameStatus::Init);
    idle.update(Msg::NextLevelTimeout(GameLevel::Level2));
    assert_eq!(idle.game_status(), GameStatus::Init);
}

#[test]
fn level_change_counts_the_index_anew() {
    let mut app = game_on();
    // the same cores occupied by other parachains: one pattern at the
    // first level, two patterns at the second
    let one = Block::new(1, vec![Core::new(0, Some(5)), Core::new(1, None)], SupportedRelayRuntime::Polkadot);
    let other = Block::new(2, vec![Core::new(0, Some(6)), Core::new(1, None)], SupportedRelayRuntime::Polkadot);
    let first = one.corespace_hash(GameLevel::Level1);
    assert_eq!(first, other.corespace_hash(GameLevel::Level1));
    let second_one = one.corespace_hash(GameLevel::Level2);
    let second_other = other.corespace_hash(GameLevel::Level2);
    assert_ne!(second_one, second_other);
    app.update(Msg::NetworkDataReceived((SUBSCRIPTION, one)));
    app.update(Msg::NetworkDataReceived((SUBSCRIPTION, other)));
    assert_eq!(app.matches().count(first), 2);
    app.update(Msg::LevelButtonClicked(GameLevel::Level2));
    assert_eq!(app.game_level(), GameLevel::Level2);
    assert_eq!(app.matches().count(first), 0);
    assert_eq!(app.matches().count(second_one), 1);
    assert_eq!(app.matches().count(second_other), 1);
    // at the second level the two blocks do not match
    attempt(&mut app, 1, 0);
    assert_eq!(app.tries(), 3);
    assert_eq!(app.points(), 0);
}

#[test]
fn help_highlights_the_last_pattern_and_spends_the_budget() {
    let mut app = game_on();
    feed(&mut app, &[A, A, B, B, C]);
    let a = block_with(0, A).corespace_hash(GameLevel::Level1);
    let b = block_with(0, B).corespace_hash(GameLevel::Level1);
    let last = if a > b { A } else { B };
    assert_eq!(app.matches().last_above_threshold(), Some(if a > b { a } else { b }));
    app.update(Msg::HelpButtonClicked);
    assert_eq!(app.game_help_status(), GameHelpStatus::On);
    assert!(app.is_help_on());
    assert_eq!(app.helps(), 8);
    // nothing is highlighted before the next block comes
    assert!(app.blocks().iter().flatten().all(|block| block.help_class.is_none()));
    feed(&mut app, &[D]);
    for block in app.blocks().iter().flatten() {
        let expected = block.corespace == block_with(0, last).corespace;
        assert_eq!(block.help_class.is_some(), expected);
    }
    assert_eq!(app.helps(), 6);
    assert_eq!(app.game_help_status(), GameHelpStatus::On);
    feed(&mut app, &[E, F]);
    assert_eq!(app.helps(), 2);
    // the budget runs out within the call that uses it up
    feed(&mut app, &[G]);
    assert_eq!(app.helps(), 0);
    assert_eq!(app.game_help_status(), GameHelpStatus::NotAvailable);
    assert!(!app.is_help_on());
    feed(&mut app, &[H]);
    assert!(app.blocks().iter().flatten().all(|block| block.help_class.is_none()));
    app.update(Msg::HelpButtonClicked);
    assert_eq!(app.game_help_status(), GameHelpStatus::NotAvailable);
}

#[test]
fn help_shows_a_single_pattern_too() {
    let mut app = game_on();
    feed(&mut app, &[A, A, B]);
    app.update(Msg::KeyPressed(SupportedKeys::H));
    feed(&mut app, &[C]);
    assert!(block_at(&app, 2).help_class.is_some());
    assert!(block_at(&app, 3).help_class.is_some());
    assert_eq!(block_at(&app, 3).help_class.as_deref(), Some("help"));
    assert!(block_at(&app, 0).help_class.is_none());
    assert_eq!(app.helps(), 6);
}

#[test]
fn help_leaves_matched_cells_out() {
    let mut app = game_on();
    feed(&mut app, &[A, A, A, A]);
    attempt(&mut app, 3, 2);
    app.update(Msg::BlockAnimationEnded(101));
    app.update(Msg::HelpButtonClicked);
    feed(&mut app, &[B]);
    // slots 1 and 2 are in play; slot 3 is disabled and slot 4 is matched
    assert!(block_at(&app, 1).help_class.is_some());
    assert!(block_at(&app, 2).help_class.is_some());
    assert!(block_at(&app, 3).help_class.is_none());
    assert!(block_at(&app, 4).help_class.is_none());
    assert_eq!(app.helps(), 6);
}

#[test]
fn decr_help_matches_counts_while_help_is_on() {
    let mut app = game_on();
    app.decr_help_matches(3);
    assert_eq!(app.helps(), 8);
    app.start_help();
    app.decr_help_matches(0);
    assert_eq!(app.helps(), 8);
    app.decr_help_matches(3);
    assert_eq!(app.helps(), 5);
    assert_eq!(app.game_help_status(), GameHelpStatus::On);
    app.decr_help_matches(9);
    assert_eq!(app.helps(), 0);
    assert_eq!(app.game_help_status(), GameHelpStatus::NotAvailable);
}

#[test]
fn start_resets_the_game_and_keeps_the_window() {
    let mut app = game_on();
    feed(&mut app, &[A, B, C, D, E]);
    for target in [3usize, 2, 1, 0] {
        attempt(&mut app, 4, target);
    }
    assert_eq!(app.game_status(), GameStatus::Over);
    app.update(Msg::StartButtonClicked);
    assert_eq!(app.game_status(), GameStatus::On);
    assert_eq!(app.game_level(), GameLevel::Level1);
    assert_eq!(app.board_status(), BoardStatus::Game);
    assert_eq!(app.previous_board_status(), Some(BoardStatus::Options));
    assert_eq!(app.tries(), 4);
    assert_eq!(app.points(), 0);
    assert_eq!(app.duration(), 0);
    assert_eq!(app.helps(), 8);
    assert_eq!(app.cursor_position(), (0, 0));
    assert_eq!(block_at(&app, 4).block_number, 100);
    assert!(app.blocks().iter().flatten().all(|block| block.missed_class.is_none()));
    assert_eq!(app.matches().count(block_with(0, A).corespace_hash(GameLevel::Level1)), 1);
    // a game that is on is not started again
    feed(&mut app, &[F]);
    app.update(Msg::KeyPressed(SupportedKeys::S));
    assert_eq!(app.duration(), 1);
}

#[test]
fn reset_and_full_reset() {
    let mut app = game_on();
    feed(&mut app, &[A, A]);
    attempt(&mut app, 1, 0);
    app.reset();
    assert_eq!(app.game_status(), GameStatus::Ready);
    assert_eq!(app.game_level(), GameLevel::Level2);
    assert_eq!(app.points(), 0);
    assert_eq!(app.previous_points(), 0);
    assert_eq!(app.match_counter(), 0);
    assert_eq!(app.match_position(), None);
    assert!(app.blocks()[0].is_some());
    assert!(!block_at(&app, 0).is_matched());
    assert_eq!(app.matches().count(block_with(0, A).corespace_hash(GameLevel::Level2)), 2);
    app.full_reset();
    assert!(app.blocks().iter().all(|slot| slot.is_none()));
    assert_eq!(app.blocks().len(), 9);
    assert_eq!(app.matches().count(block_with(0, A).corespace_hash(GameLevel::Level2)), 0);
    assert!(app.matches().matched_hashes_above_threshold().is_empty());
}

#[test]
fn chain_switch_reloads_and_drops_the_old_feed() {
    let mut app = game_on();
    feed(&mut app, &[A]);
    app.update(Msg::NetworkChanged(SupportedRelayRuntime::Kusama));
    assert_eq!(app.game_status(), GameStatus::Reload);
    assert_eq!(app.network_state().status, NetworkStatus::Switching);
    assert_eq!(app.network_state().runtime, SupportedRelayRuntime::Kusama);
    // blocks of the old subscription are stale from now on
    app.update(Msg::NetworkDataReceived((SUBSCRIPTION, block_with(300, B))));
    assert_eq!(block_at(&app, 0).block_number, 100);
    app.update(Msg::NetworkSubscriptionCreated(SUBSCRIPTION + 1));
    assert_eq!(app.game_status(), GameStatus::Ready);
    assert!(app.blocks().iter().all(|slot| slot.is_none()));
    app.update(Msg::NetworkDataReceived((SUBSCRIPTION, block_with(301, B))));
    assert!(app.blocks().iter().all(|slot| slot.is_none()));
    app.update(Msg::NetworkDataReceived((SUBSCRIPTION + 1, block_with(302, B))));
    assert_eq!(block_at(&app, 0).block_number, 302);
    // a feed that is not active does not switch
    let mut idle = App::new(SupportedRelayRuntime::Polkadot);
    idle.update(Msg::NetworkChanged(SupportedRelayRuntime::Kusama));
    assert_eq!(idle.game_status(), GameStatus::Init);
    assert_eq!(idle.network_state().runtime, SupportedRelayRuntime::Polkadot);
}

#[test]
fn points_never_fall_while_a_game_goes_on() {
    let mut app = game_on();
    feed(&mut app, &[A, A, B, C]);
    let mut last = app.points();
    let messages = vec![
        Msg::BlockClicked(3),
        Msg::BlockPressed(3),
        Msg::BlockPressed(2),
        Msg::BlockPressed(1),
        Msg::HelpButtonClicked,
        Msg::NetworkDataReceived((SUBSCRIPTION, block_with(400, D))),
        Msg::BlockAnimationEnded(100),
        Msg::KeyPressed(SupportedKeys::F),
        Msg::InfoButtonClicked,
        Msg::MintButtonClicked,
        Msg::LevelButtonClicked(GameLevel::Level2),
        Msg::StartButtonClicked,
        Msg::NetworkChanged(SupportedRelayRuntime::Kusama),
    ];
    for msg in messages {
        app.update(msg);
        assert!(app.points() >= last);
        last = app.points();
    }
    assert_eq!(last, 8);
}

#[test]
fn board_views_follow_the_buttons() {
    let mut app = App::new(SupportedRelayRuntime::Polkadot);
    app.update(Msg::InfoButtonClicked);
    assert_eq!(app.board_status(), BoardStatus::About);
    assert_eq!(app.previous_board_status(), Some(BoardStatus::Game));
    app.update(Msg::InfoButtonClicked);
    assert_eq!(app.board_status(), BoardStatus::Game);
    app.update(Msg::AccountsLoaded(Vec::new()));
    assert_eq!(app.board_status(), BoardStatus::Account);
    app.toggle_info();
    assert_eq!(app.board_status(), BoardStatus::About);
    assert_eq!(app.previous_board_status(), Some(BoardStatus::Account));
    app.account_clicked();
    assert_eq!(app.board_status(), BoardStatus::Account);
    app.update(Msg::SigningFinished(corematch::account::SigningStatus::Succeeded));
    assert_eq!(app.game_status(), GameStatus::Init);
    app.update(Msg::SigningFinished(corematch::account::SigningStatus::Failed));
    assert_eq!(app.game_status(), GameStatus::Over);
}

#[test]
fn details_flip_the_cursor_cell_once_per_animation() {
    let mut app = game_on();
    feed(&mut app, &[A]);
    app.update(Msg::KeyPressed(SupportedKeys::F));
    assert!(block_at(&app, 0).is_flipped);
    assert!(block_at(&app, 0).is_anim_live());
    assert_eq!(block_at(&app, 0).anim_class.as_deref(), Some("anim"));
    app.show_details();
    assert!(block_at(&app, 0).is_flipped);
    app.update(Msg::BlockAnimationEnded(100));
    assert!(!block_at(&app, 0).is_anim_live());
    app.show_details();
    assert!(!block_at(&app, 0).is_flipped);
}

#[test]
fn parachains_get_colours_of_the_palette() {
    let mut app = App::new(SupportedRelayRuntime::Polkadot);
    app.update(Msg::NetworkParachainsCollected(vec![1000, 2000, 2004, 3333]));
    let colors = &app.network_state().parachain_colors;
    assert_eq!(colors.len(), 4);
    let mut hues: Vec<u32> = colors.values().map(|color| color.0).collect();
    hues.sort();
    assert_eq!(hues, vec![0, 90, 180, 270]);
    assert!(colors.values().all(|color| color.1 == 96 && color.2 == 68));
    assert!(colors.contains_key(&2004));
    assert_eq!(app.game_status(), GameStatus::Init);
}

#[test]
fn match_block_is_the_block_of_the_reference_cell() {
    let mut app = game_on();
    feed(&mut app, &[A, B, C]);
    assert!(app.get_match_block().is_none());
    assert_eq!(app.get_match_index(), None);
    app.update(Msg::BlockClicked(2));
    app.update(Msg::BlockPressed(2));
    assert_eq!(app.get_match_index(), Some(2));
    assert_eq!(app.get_match_block().unwrap().block_number, 100);
    app.select_block(1);
    assert!(block_at(&app, 1).is_selected());
    app.unselect_block(1);
    assert!(!block_at(&app, 1).is_selected());
    app.reset_match_block();
    assert_eq!(app.get_match_index(), None);
}

#[test]
fn buttons_follow_the_game() {
    let mut app = App::new(SupportedRelayRuntime::Polkadot);
    assert!(app.is_help_disabled());
    assert!(app.is_level_disabled(GameLevel::Level1));
    assert!(app.is_level_disabled(GameLevel::Level2));
    app.update(Msg::NetworkSubscriptionCreated(SUBSCRIPTION));
    app.update(Msg::StartButtonClicked);
    assert!(!app.is_help_disabled());
    assert!(app.is_level_disabled(GameLevel::Level1));
    assert!(app.is_level_disabled(GameLevel::Level2));
    app.update(Msg::HelpButtonClicked);
    assert!(app.is_help_disabled());
    feed(&mut app, &[A, A, A, A]);
    app.update(Msg::BlockClicked(3));
    app.update(Msg::BlockPressed(3));
    for target in [2usize, 1, 0] {
        app.update(Msg::BlockPressed(target));
    }
    assert_eq!(app.points(), 56);
    assert!(!app.is_level_disabled(GameLevel::Level2));
    app.update(Msg::LevelButtonClicked(GameLevel::Level2));
    assert!(app.is_level_disabled(GameLevel::Level2));
    assert!(!app.is_level_disabled(GameLevel::Level1));
}

#[test]
fn bare_setters_move_cursor_and_reference() {
    let mut app = game_on();
    feed(&mut app, &[A, B]);
    app.set_cursor_position(5);
    assert_eq!(app.cursor_position(), (2, 1));
    // the selection stays where it was
    assert!(block_at(&app, 0).is_selected());
    app.set_cursor_position(9);
    assert_eq!(app.cursor_position(), (2, 1));
    app.set_match_position(7);
    assert_eq!(app.match_position(), Some((1, 2)));
    assert_eq!(app.get_match_index(), Some(7));
    assert_eq!(app.match_class(), "match__7");
    app.set_match_position(12);
    assert_eq!(app.get_match_index(), Some(7));
}

#[test]
fn index_counts_add_up_to_the_occupied_slots() {
    let mut app = game_on();
    let occupied = |app: &App| app.blocks().iter().flatten().count() as u32;
    let counted = |app: &App| app.matches().entries().iter().map(|entry| entry.1).sum::<u32>();
    assert_eq!(counted(&app), 0);
    for (n, mask) in [A, B, A, C, A, D, D, E, F, G, H, A].iter().enumerate() {
        app.update(Msg::NetworkDataReceived((SUBSCRIPTION, block_with(n as u32, *mask))));
        assert_eq!(counted(&app), occupied(&app));
        assert!(app.matches().entries().iter().all(|entry| entry.1 > 0));
    }
    assert_eq!(occupied(&app), 9);
    // a wrong match leaves the index as it is
    app.update(Msg::BlockClicked(0));
    app.update(Msg::BlockPressed(0));
    app.update(Msg::BlockPressed(1));
    assert_eq!(app.tries(), 3);
    assert_eq!(counted(&app), 9);
    // a match takes two blocks out of the count and leaves them in the window
    let d = block_with(0, D).corespace_hash(GameLevel::Level1);
    assert_eq!(app.matches().count(d), 2);
    attempt(&mut app, 5, 6);
    assert_eq!(app.points(), 8);
    assert_eq!(app.matches().count(d), 0);
    assert_eq!(counted(&app), 7);
    assert_eq!(occupied(&app), 9);
    assert!(app.matches().entries().iter().all(|entry| entry.1 > 0));
    // counting anew makes the index exact again
    app.update(Msg::LevelButtonClicked(GameLevel::Level1));
    assert_eq!(counted(&app), 9);
    assert_eq!(app.matches().count(d), 2);
}
