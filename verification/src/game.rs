//! The states a game moves through: what the board shows, how far the game
//! is, which level is played and whether help can be had.
use vstd::prelude::*;
use vstd::string::StringExecFns;
use crate::block::BlockView;
use crate::corespace::{CoreView, ParachainColors};

verus! {

/// What the middle of the page shows.
#[derive(Debug, Clone, Copy, PartialEq, Eq, Structural)]
pub enum BoardStatus {
    Game,
    Account,
    Options,
    Mint,
    About,
    Leaderboard,
}

/// How far a game is.
#[derive(Debug, Clone, Copy, PartialEq, Eq, Structural)]
pub enum GameStatus {
    /// No block feed is active yet.
    Init,
    /// A feed is active and a game can be started.
    Ready,
    /// The feed is being replaced by that of another chain.
    Reload,
    /// A game is being played.
    On,
    /// The last game ended with no tries left.
    Over,
    /// The game pauses before it goes on at the given level.
    MoveTo(GameLevel),
}

/// A level of the game; each level hashes a block's cores in its own way.
#[derive(Debug, Clone, Copy, PartialEq, Eq, Structural)]
pub enum GameLevel {
    /// Cores count as empty or occupied.
    Level1,
    /// Cores count by the parachain that occupies them.
    Level2,
}

/// Whether matching patterns can be highlighted.
#[derive(Debug, Clone, Copy, PartialEq, Eq, Structural)]
pub enum GameHelpStatus {
    On,
    NotAvailable,
    Available,
}

impl GameStatus {
    /// Whether blocks and ticks count for a game: it is on, or pausing
    /// between two levels.
    pub open spec fn is_playing(&self) -> bool {
        *self is On || *self is MoveTo
    }

    /// The status in words.
    pub open spec fn spec_text(&self) -> Seq<char> {
        match self {
            Self::Init => "Initializing"@,
            Self::Ready => "Ready for play"@,
            Self::Reload => "Reload"@,
            Self::On => "Is On!"@,
            Self::Over => "Is Over!"@,
            Self::MoveTo(level) => "Moving to "@ + level.spec_text(),
        }
    }

    pub fn to_string(&self) -> (text: String)
        ensures
            text@ == self.spec_text(),
    {
        match self {
            Self::Init => String::from_str("Initializing"),
            Self::Ready => String::from_str("Ready for play"),
            Self::Reload => String::from_str("Reload"),
            Self::On => String::from_str("Is On!"),
            Self::Over => String::from_str("Is Over!"),
            Self::MoveTo(level) => {
                let mut text = String::from_str("Moving to ");
                let name = level.to_string();
                text.append(name.as_str());
                text
            },
        }
    }
}

impl GameLevel {
    /// The number of points from which the level counts as completed.
    /// Only the first level has one.
    pub open spec fn spec_points_minimum(&self) -> u32
        recommends
            *self is Level1,
    {
        32
    }

    /// The level in words.
    pub open spec fn spec_text(&self) -> Seq<char> {
        match self {
            Self::Level1 => "Level 1"@,
            Self::Level2 => "Level 2"@,
        }
    }

    /// The style class of the level.
    pub open spec fn spec_class(&self) -> Seq<char> {
        match self {
            Self::Level1 => "level__1"@,
            Self::Level2 => "level__2"@,
        }
    }

    /// How a block is drawn at this level: by its cores, at both levels.
    pub fn block_view(&self) -> (view: BlockView)
        ensures
            view == BlockView::Cores,
    {
        match self {
            Self::Level1 => BlockView::Cores,
            Self::Level2 => BlockView::Cores,
        }
    }

    /// How a core is drawn at this level. The second level needs the colours
    /// of the parachains and cannot draw without them.
    pub fn core_view(&self, opt: Option<ParachainColors>) -> (view: CoreView)
        ensures
            view == match (*self, opt) {
                (GameLevel::Level1, _) => CoreView::Binary,
                (GameLevel::Level2, Some(colors)) => CoreView::Multi(colors),
                (GameLevel::Level2, None) => CoreView::NotApplicable,
            },
    {
        match self {
            Self::Level1 => CoreView::Binary,
            Self::Level2 => {
                if let Some(colors) = opt {
                    CoreView::Multi(colors)
                } else {
                    CoreView::NotApplicable
                }
            },
        }
    }

    /// The points that complete the level. Defined for the first level only.
    pub fn collected_points_per_level_minimum(&self) -> (points: u32)
        requires
            *self is Level1,
        ensures
            points == self.spec_points_minimum(),
            points == 32,
    {
        32
    }

    /// The column in which the block to be matched was once shown.
    pub fn match_x_position(&self) -> (x: u32)
        ensures
            x == match self {
                Self::Level1 => 3u32,
                Self::Level2 => 0u32,
            },
    {
        match self {
            Self::Level1 => 3,
            Self::Level2 => 0,
        }
    }

    pub fn class(&self) -> (class: String)
        ensures
            class@ == self.spec_class(),
    {
        match self {
            Self::Level1 => String::from_str("level__1"),
            Self::Level2 => String::from_str("level__2"),
        }
    }

    pub fn to_string(&self) -> (text: String)
        ensures
            text@ == self.spec_text(),
    {
        match self {
            Self::Level1 => String::from_str("Level 1"),
            Self::Level2 => String::from_str("Level 2"),
        }
    }
}

impl GameHelpStatus {
    pub fn is_on(&self) -> (b: bool)
        ensures
            b == (*self is On),
    {
        *self == Self::On
    }

    pub fn is_available(&self) -> (b: bool)
        ensures
            b == (*self is Available),
    {
        *self == Self::Available
    }

    pub fn is_not_available(&self) -> (b: bool)
        ensures
            b == (*self is NotAvailable),
    {
        *self == Self::NotAvailable
    }
}

} // verus!
