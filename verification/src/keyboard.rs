//! The keys the game answers to.
use vstd::prelude::*;
use vstd::std_specs::convert::FromSpecImpl;
use vstd::string::StringExecFns;

verus! {

/// A key the game answers to, or `NotSupported` for any other.
#[derive(Debug, Clone, Copy, PartialEq, Eq, Structural)]
pub enum SupportedKeys {
    /// The arrow keys move the cursor over the board.
    Up,
    Down,
    Left,
    Right,
    /// Enter starts a game, or commits the cell under the cursor.
    Enter,
    /// Space commits the cell under the cursor.
    Space,
    /// Starts a game.
    S,
    /// Highlights matching patterns.
    H,
    /// Flips the cell under the cursor to show the block's details.
    F,
    NotSupported,
}

impl SupportedKeys {
    /// The key that the browser names `name`. The names are tried in the
    /// order written here.
    pub open spec fn spec_from_name(name: Seq<char>) -> Self {
        if name == "ArrowUp"@ {
            Self::Up
        } else if name == "ArrowDown"@ {
            Self::Down
        } else if name == "ArrowLeft"@ {
            Self::Left
        } else if name == "ArrowRight"@ {
            Self::Right
        } else if name == "Enter"@ {
            Self::Enter
        } else if name == "Space"@ || name == " "@ {
            Self::Space
        } else if name == "S"@ || name == "s"@ {
            Self::S
        } else if name == "H"@ || name == "h"@ {
            Self::H
        } else if name == "F"@ || name == "f"@ {
            Self::F
        } else {
            Self::NotSupported
        }
    }

    /// Whether `name` reads as `text`.
    fn reads(name: &String, text: &str) -> (b: bool)
        ensures
            b == (name@ == text@),
    {
        *name == String::from_str(text)
    }
}

impl From<String> for SupportedKeys {
    fn from(v: String) -> (key: Self) {
        if Self::reads(&v, "ArrowUp") {
            Self::Up
        } else if Self::reads(&v, "ArrowDown") {
            Self::Down
        } else if Self::reads(&v, "ArrowLeft") {
            Self::Left
        } else if Self::reads(&v, "ArrowRight") {
            Self::Right
        } else if Self::reads(&v, "Enter") {
            Self::Enter
        } else if Self::reads(&v, "Space") || Self::reads(&v, " ") {
            Self::Space
        } else if Self::reads(&v, "S") || Self::reads(&v, "s") {
            Self::S
        } else if Self::reads(&v, "H") || Self::reads(&v, "h") {
            Self::H
        } else if Self::reads(&v, "F") || Self::reads(&v, "f") {
            Self::F
        } else {
            Self::NotSupported
        }
    }
}

impl FromSpecImpl<String> for SupportedKeys {
    open spec fn obeys_from_spec() -> bool {
        true
    }

    open spec fn from_spec(v: String) -> Self {
        Self::spec_from_name(v@)
    }
}

} // verus!
