//! The pages of the game and what a link to it can ask for.
use vstd::prelude::*;
use vstd::string::StringExecFns;
use crate::support::SupportedRelayRuntime;

verus! {

/// A page.
#[derive(Debug, Clone, Copy, PartialEq, Eq, Structural)]
pub enum Routes {
    /// The game.
    Index,
    /// The page for every path that leads nowhere.
    NotFound,
}

/// What the query of a link asks for.
#[derive(Debug, Clone, Copy, PartialEq, Eq, Structural)]
pub struct Query {
    /// The chain to play on.
    pub chain: SupportedRelayRuntime,
}

impl Routes {
    /// The path of the page.
    pub open spec fn spec_path(&self) -> Seq<char> {
        match self {
            Self::Index => "/"@,
            Self::NotFound => "/404"@,
        }
    }

    pub fn path(&self) -> (path: &'static str)
        ensures
            path@ == self.spec_path(),
    {
        match self {
            Self::Index => "/",
            Self::NotFound => "/404",
        }
    }

    /// The page that `path` leads to: the game at the root, and the page
    /// for paths that lead nowhere at any other.
    pub fn from_path(path: &str) -> (route: Self)
        ensures
            route == if path@ == "/"@ {
                Routes::Index
            } else {
                Routes::NotFound
            },
    {
        if String::from_str(path) == String::from_str("/") {
            Self::Index
        } else {
            Self::NotFound
        }
    }
}

impl Query {
    /// The chain that a link asks for, or Polkadot where it asks for
    /// none.
    pub fn chain_or_default(query: Option<Query>) -> (chain: SupportedRelayRuntime)
        ensures
            chain == match query {
                Some(q) => q.chain,
                None => SupportedRelayRuntime::Polkadot,
            },
    {
        match query {
            Some(q) => q.chain,
            None => SupportedRelayRuntime::Polkadot,
        }
    }
}

} // verus!
