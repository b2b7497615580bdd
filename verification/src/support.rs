//! The relay chains and system parachains the game can be played on.
use vstd::prelude::*;
use vstd::string::StringExecFns;

verus! {

/// Prefix of a chain in the address format registry.
pub type ChainPrefix = u16;

/// A relay chain whose core usage can feed the board.
#[derive(Debug, Clone, Copy, PartialEq, Eq, Structural)]
pub enum SupportedRelayRuntime {
    Polkadot,
    Kusama,
}

/// A system parachain holding the assets of a relay chain.
#[derive(Debug, Clone, Copy, PartialEq, Eq, Structural)]
pub enum SupportedParachainRuntime {
    AssetHubPolkadot,
    AssetHubKusama,
}

impl SupportedRelayRuntime {
    /// The chain's address prefix.
    pub open spec fn spec_chain_prefix(&self) -> ChainPrefix {
        match self {
            Self::Polkadot => 0,
            Self::Kusama => 2,
        }
    }

    /// The chain's display name.
    pub open spec fn spec_name(&self) -> Seq<char> {
        match self {
            Self::Polkadot => "Polkadot"@,
            Self::Kusama => "Kusama"@,
        }
    }

    /// The chain's name in lower case, as used for style classes.
    pub open spec fn spec_class(&self) -> Seq<char> {
        match self {
            Self::Polkadot => "polkadot"@,
            Self::Kusama => "kusama"@,
        }
    }

    /// The mention and tag that a shared result carries for the chain.
    pub open spec fn spec_hashtag(&self) -> Seq<char> {
        match self {
            Self::Polkadot => "@Polkadot #BuildOnPolkadot"@,
            Self::Kusama => "@kusamanetwork #BuildOnKusama"@,
        }
    }

    /// Whether `name` is one of the spellings that select Polkadot.
    pub open spec fn names_polkadot(name: Seq<char>) -> bool {
        name == "Polkadot"@ || name == "polkadot"@ || name == "DOT"@
    }

    /// Whether `name` is one of the spellings that select Kusama.
    pub open spec fn names_kusama(name: Seq<char>) -> bool {
        name == "Kusama"@ || name == "kusama"@ || name == "KSM"@
    }

    /// The chain that `name` selects: Polkadot is tried first, then Kusama.
    pub open spec fn spec_from_name(name: Seq<char>) -> Option<Self> {
        if Self::names_polkadot(name) {
            Some(Self::Polkadot)
        } else if Self::names_kusama(name) {
            Some(Self::Kusama)
        } else {
            None
        }
    }

    /// The chain with address prefix `prefix`.
    pub open spec fn spec_from_prefix(prefix: ChainPrefix) -> Option<Self> {
        if prefix == 0 {
            Some(Self::Polkadot)
        } else if prefix == 2 {
            Some(Self::Kusama)
        } else {
            None
        }
    }

    pub fn _chain_prefix(&self) -> (prefix: ChainPrefix)
        ensures
            prefix == self.spec_chain_prefix(),
            Self::spec_from_prefix(prefix) == Some(*self),
    {
        match self {
            Self::Polkadot => 0,
            Self::Kusama => 2,
        }
    }

    /// Endpoint of the relay chain node that the block feed connects to.
    pub fn default_rpc_url(&self) -> (url: &'static str)
        ensures
            url@ == match self {
                Self::Polkadot => "wss://rpc.ibp.network:443/polkadot"@,
                Self::Kusama => "wss://rpc.ibp.network:443/kusama"@,
            },
    {
        match self {
            Self::Polkadot => "wss://rpc.ibp.network:443/polkadot",
            Self::Kusama => "wss://rpc.ibp.network:443/kusama",
        }
    }

    /// Endpoint of the chain's people parachain.
    pub fn default_people_rpc_url(&self) -> (url: &'static str)
        ensures
            url@ == match self {
                Self::Polkadot => "wss://sys.ibp.network:443/people-polkadot"@,
                Self::Kusama => "wss://sys.ibp.network:443/people-kusama"@,
            },
    {
        match self {
            Self::Polkadot => "wss://sys.ibp.network:443/people-polkadot",
            Self::Kusama => "wss://sys.ibp.network:443/people-kusama",
        }
    }

    /// Ticker of the chain's native token.
    pub fn unit(&self) -> (ticker: &'static str)
        ensures
            ticker@ == match self {
                Self::Polkadot => "DOT"@,
                Self::Kusama => "KSM"@,
            },
            Self::spec_from_name(ticker@) == Some(*self),
    {
        proof {
            reveal_strlit("Polkadot");
            reveal_strlit("polkadot");
            reveal_strlit("DOT");
            reveal_strlit("KSM");
            assert("KSM"@.len() == 3 && "KSM"@[0] == 'K');
            assert("DOT"@.len() == 3 && "DOT"@[0] == 'D');
            assert("Polkadot"@.len() == 8 && "polkadot"@.len() == 8);
        }
        match self {
            Self::Polkadot => "DOT",
            Self::Kusama => "KSM",
        }
    }

    /// Decimal places of the chain's native token.
    pub fn decimals(&self) -> (places: u16)
        ensures
            places == match self {
                Self::Polkadot => 10u16,
                Self::Kusama => 12u16,
            },
    {
        match self {
            Self::Polkadot => 10,
            Self::Kusama => 12,
        }
    }

    /// The chain's display name.
    pub fn to_string(&self) -> (name: String)
        ensures
            name@ == self.spec_name(),
    {
        match self {
            Self::Polkadot => String::from_str("Polkadot"),
            Self::Kusama => String::from_str("Kusama"),
        }
    }

    /// The style class of the chain: its name in lower case.
    pub fn class(&self) -> (class: String)
        ensures
            class@ == self.spec_class(),
    {
        match self {
            Self::Polkadot => String::from_str("polkadot"),
            Self::Kusama => String::from_str("kusama"),
        }
    }

    /// The number of cores drawn in one row of a block.
    pub fn columns_size(&self) -> (columns: u32)
        ensures
            columns == 8,
    {
        match self {
            Self::Polkadot => 8,
            Self::Kusama => 8,
        }
    }

    pub fn hashtag(&self) -> (tag: String)
        ensures
            tag@ == self.spec_hashtag(),
    {
        match self {
            Self::Polkadot => String::from_str("@Polkadot #BuildOnPolkadot"),
            Self::Kusama => String::from_str("@kusamanetwork #BuildOnKusama"),
        }
    }

    /// The asset hub that belongs to the relay chain.
    pub fn asset_hub_runtime(&self) -> (hub: SupportedParachainRuntime)
        ensures
            hub == match self {
                Self::Polkadot => SupportedParachainRuntime::AssetHubPolkadot,
                Self::Kusama => SupportedParachainRuntime::AssetHubKusama,
            },
    {
        match self {
            Self::Polkadot => SupportedParachainRuntime::AssetHubPolkadot,
            Self::Kusama => SupportedParachainRuntime::AssetHubKusama,
        }
    }

    /// Reads a chain from its name or ticker; `None` for any other text.
    pub fn from_name(name: &str) -> (chain: Option<Self>)
        ensures
            chain == Self::spec_from_name(name@),
    {
        let given = String::from_str(name);
        if given == String::from_str("Polkadot") || given == String::from_str("polkadot") || given
            == String::from_str("DOT") {
            Some(Self::Polkadot)
        } else if given == String::from_str("Kusama") || given == String::from_str("kusama")
            || given == String::from_str("KSM") {
            Some(Self::Kusama)
        } else {
            None
        }
    }

    /// Reads a chain from its address prefix; `None` for any other prefix.
    pub fn from_prefix(prefix: ChainPrefix) -> (chain: Option<Self>)
        ensures
            chain == Self::spec_from_prefix(prefix),
    {
        if prefix == 0 {
            Some(Self::Polkadot)
        } else if prefix == 2 {
            Some(Self::Kusama)
        } else {
            None
        }
    }
}

impl SupportedParachainRuntime {
    /// Endpoint of the parachain node.
    pub fn default_rpc_url(&self) -> (url: String)
        ensures
            url@ == "wss://sys.ibp.network/westmint"@,
    {
        match self {
            Self::AssetHubPolkadot => String::from_str("wss://sys.ibp.network/westmint"),
            Self::AssetHubKusama => String::from_str("wss://sys.ibp.network/westmint"),
        }
    }

    /// The parachain's display name, which is the same for both hubs.
    pub fn to_string(&self) -> (name: String)
        ensures
            name@ == "AssetHub Polkadot"@,
    {
        match self {
            Self::AssetHubPolkadot => String::from_str("AssetHub Polkadot"),
            Self::AssetHubKusama => String::from_str("AssetHub Polkadot"),
        }
    }
}

} // verus!
