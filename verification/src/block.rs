//! A finalized block as a cell of the board: the cores of the chain at that
//! block, and the marks the game puts on the cell.
use vstd::prelude::*;
use vstd::string::StringExecFns;
use crate::corespace::{Core, Corespace};
use crate::game::GameLevel;
use crate::hashing::{corespace_hash_of, corespace_key, CorespaceHash};
use crate::support::SupportedRelayRuntime;

verus! {

/// Number of a block in its chain.
pub type BlockNumber = u32;

/// A mark on a cell.
#[derive(Debug, Clone, Copy, PartialEq, Eq, Structural)]
pub enum Status {
    Matched,
    Selected,
    Unset,
}

/// What a block shows.
#[derive(Debug, Clone, Copy, PartialEq, Eq, Structural)]
pub enum BlockView {
    Cores,
    Palette,
}

impl BlockView {
    /// What is shown, in words.
    pub open spec fn spec_text(&self) -> Seq<char> {
        match self {
            Self::Cores => "core usage"@,
            Self::Palette => "block palette"@,
        }
    }

    pub fn to_string(&self) -> (text: String)
        ensures
            text@ == self.spec_text(),
    {
        match self {
            Self::Cores => String::from_str("core usage"),
            Self::Palette => String::from_str("block palette"),
        }
    }
}

/// A block on the board. Each mark is kept as the style class that shows it.
#[derive(Debug, PartialEq, Eq)]
pub struct Block {
    pub block_number: BlockNumber,
    pub corespace: Corespace,
    pub runtime: SupportedRelayRuntime,
    pub selected_class: Option<String>,
    pub disable_class: Option<String>,
    pub missed_class: Option<String>,
    pub matched_class: Option<String>,
    pub help_class: Option<String>,
    pub anim_class: Option<String>,
    pub is_selected: bool,
    pub is_flipped: bool,
}

/// A block as a mathematical value.
pub struct BlockState {
    pub block_number: BlockNumber,
    pub corespace: Seq<Core>,
    pub runtime: SupportedRelayRuntime,
    pub selected_class: Option<Seq<char>>,
    pub disable_class: Option<Seq<char>>,
    pub missed_class: Option<Seq<char>>,
    pub matched_class: Option<Seq<char>>,
    pub help_class: Option<Seq<char>>,
    pub anim_class: Option<Seq<char>>,
    pub is_selected: bool,
    pub is_flipped: bool,
}

/// A style class as a mathematical value.
pub open spec fn class_view(class: Option<String>) -> Option<Seq<char>> {
    match class {
        Some(text) => Some(text@),
        None => None,
    }
}

/// The number of occupied cores among `corespace`.
pub open spec fn occupied_cores(corespace: Seq<Core>) -> nat {
    corespace.filter(|core: Core| core.para_id is Some).len()
}

/// The cores drawn as squares, filled for an occupied core, in rows of
/// `columns`: a line ends after every `columns` cores.
pub open spec fn ascii_art(corespace: Seq<Core>, columns: nat) -> Seq<char>
    decreases corespace.len(),
{
    if corespace.len() == 0 {
        Seq::empty()
    } else {
        let square = if corespace.last().para_id is Some {
            "■"@
        } else {
            "□"@
        };
        let end = if columns != 0 && corespace.len() % columns == 0 {
            "\n"@
        } else {
            Seq::empty()
        };
        ascii_art(corespace.drop_last(), columns) + square + end
    }
}

impl BlockState {
    /// The block as the feed hands it over: without any mark.
    pub open spec fn fresh(
        block_number: BlockNumber,
        corespace: Seq<Core>,
        runtime: SupportedRelayRuntime,
    ) -> BlockState {
        BlockState {
            block_number,
            corespace,
            runtime,
            selected_class: None,
            disable_class: None,
            missed_class: None,
            matched_class: None,
            help_class: None,
            anim_class: None,
            is_selected: false,
            is_flipped: false,
        }
    }

    /// Whether `self` and `other` are the same block of the same chain,
    /// whatever marks they carry.
    pub open spec fn same_block(self, other: BlockState) -> bool {
        &&& self.block_number == other.block_number
        &&& self.corespace == other.corespace
        &&& self.runtime == other.runtime
    }

    /// The hash of the block's cores at `level`.
    pub open spec fn hash(self, level: GameLevel) -> CorespaceHash {
        corespace_key(self.corespace, level)
    }

    pub open spec fn is_selected(self) -> bool {
        self.selected_class is Some
    }

    pub open spec fn is_matched(self) -> bool {
        self.matched_class is Some
    }

    pub open spec fn is_disabled(self) -> bool {
        self.disable_class is Some
    }

    pub open spec fn is_anim_live(self) -> bool {
        self.anim_class is Some
    }

    pub open spec fn is_help_available(self) -> bool {
        self.matched_class is None
    }

    /// Whether the block has been matched and so takes no part in further
    /// matches: it is shown as matched, or is disabled after that.
    pub open spec fn is_retired(self) -> bool {
        self.is_matched() || self.is_disabled()
    }

    pub open spec fn selected(self) -> BlockState {
        BlockState { selected_class: Some("highlight"@), ..self }
    }

    pub open spec fn unselected(self) -> BlockState {
        BlockState { selected_class: None, ..self }
    }

    pub open spec fn matched(self) -> BlockState {
        BlockState { matched_class: Some("matched"@), help_class: None, ..self }
    }

    pub open spec fn disabled(self) -> BlockState {
        BlockState { matched_class: None, disable_class: Some("disabled"@), ..self }
    }

    pub open spec fn missed(self) -> BlockState {
        BlockState { missed_class: Some("missed"@), ..self }
    }

    pub open spec fn flipped(self) -> BlockState {
        BlockState { anim_class: Some("anim"@), is_flipped: !self.is_flipped, ..self }
    }

    pub open spec fn cleared(self) -> BlockState {
        BlockState { missed_class: None, help_class: None, anim_class: None, ..self }
    }

    pub open spec fn help(self) -> BlockState {
        BlockState { help_class: Some("help"@), ..self }
    }

    pub open spec fn reset_class(self) -> BlockState {
        BlockState {
            selected_class: None,
            disable_class: None,
            missed_class: None,
            matched_class: None,
            help_class: None,
            ..self
        }
    }
}

impl View for Block {
    type V = BlockState;

    open spec fn view(&self) -> BlockState {
        BlockState {
            block_number: self.block_number,
            corespace: self.corespace@,
            runtime: self.runtime,
            selected_class: class_view(self.selected_class),
            disable_class: class_view(self.disable_class),
            missed_class: class_view(self.missed_class),
            matched_class: class_view(self.matched_class),
            help_class: class_view(self.help_class),
            anim_class: class_view(self.anim_class),
            is_selected: self.is_selected,
            is_flipped: self.is_flipped,
        }
    }
}

impl Clone for Block {
    fn clone(&self) -> (copy: Self)
        ensures
            copy@ == self@,
    {
        Block {
            block_number: self.block_number,
            corespace: self.corespace.clone(),
            runtime: self.runtime,
            selected_class: self.selected_class.clone(),
            disable_class: self.disable_class.clone(),
            missed_class: self.missed_class.clone(),
            matched_class: self.matched_class.clone(),
            help_class: self.help_class.clone(),
            anim_class: self.anim_class.clone(),
            is_selected: self.is_selected,
            is_flipped: self.is_flipped,
        }
    }
}

impl Block {
    pub fn new(block_number: BlockNumber, corespace: Corespace, runtime: SupportedRelayRuntime) -> (block:
        Self)
        ensures
            block@ == BlockState::fresh(block_number, corespace@, runtime),
    {
        Self {
            block_number,
            corespace,
            runtime,
            selected_class: None,
            disable_class: None,
            missed_class: None,
            matched_class: None,
            help_class: None,
            anim_class: None,
            is_selected: false,
            is_flipped: false,
        }
    }

    /// Marks the cell as the one under the cursor.
    pub fn selected(&mut self)
        ensures
            final(self)@ == old(self)@.selected(),
    {
        self.selected_class = Some(String::from_str("highlight"));
    }

    pub fn unselected(&mut self)
        ensures
            final(self)@ == old(self)@.unselected(),
    {
        self.selected_class = None;
    }

    pub fn is_selected(&self) -> (b: bool)
        ensures
            b == self@.is_selected(),
    {
        self.selected_class.is_some()
    }

    /// Marks the cell as matched; a highlight on it ends.
    pub fn matched(&mut self)
        ensures
            final(self)@ == old(self)@.matched(),
    {
        self.matched_class = Some(String::from_str("matched"));
        self.help_class = None;
    }

    pub fn is_matched(&self) -> (b: bool)
        ensures
            b == self@.is_matched(),
    {
        self.matched_class.is_some()
    }

    /// Takes a matched cell out of play for good.
    pub fn disabled(&mut self)
        ensures
            final(self)@ == old(self)@.disabled(),
    {
        self.matched_class = None;
        self.disable_class = Some(String::from_str("disabled"));
    }

    pub fn is_disabled(&self) -> (b: bool)
        ensures
            b == self@.is_disabled(),
    {
        self.disable_class.is_some()
    }

    /// Marks the cell as part of a wrong match.
    pub fn missed(&mut self)
        ensures
            final(self)@ == old(self)@.missed(),
    {
        self.missed_class = Some(String::from_str("missed"));
    }

    /// Turns the cell over, with an animation.
    pub fn flipped(&mut self)
        ensures
            final(self)@ == old(self)@.flipped(),
    {
        self.anim_class = Some(String::from_str("anim"));
        self.is_flipped = !self.is_flipped;
    }

    pub fn is_anim_live(&self) -> (b: bool)
        ensures
            b == self@.is_anim_live(),
    {
        self.anim_class.is_some()
    }

    /// Takes the passing marks off the cell: missed, highlighted, animated.
    pub fn cleared(&mut self)
        ensures
            final(self)@ == old(self)@.cleared(),
    {
        self.missed_class = None;
        self.help_class = None;
        self.anim_class = None;
    }

    /// Whether the cell can be highlighted: it is not shown as matched.
    pub fn is_help_available(&self) -> (b: bool)
        ensures
            b == self@.is_help_available(),
    {
        self.matched_class.is_none()
    }

    /// Highlights the cell as one of a matching pattern.
    pub fn help(&mut self)
        ensures
            final(self)@ == old(self)@.help(),
    {
        self.help_class = Some(String::from_str("help"));
    }

    /// The style class of the block's chain.
    pub fn network_class(&self) -> (class: String)
        ensures
            class@ == self.runtime.spec_class(),
    {
        self.runtime.class()
    }

    pub fn reset(&mut self)
        ensures
            final(self)@ == old(self)@.reset_class(),
    {
        self.reset_class();
    }

    /// Takes every mark off the cell but its animation and its side.
    pub fn reset_class(&mut self)
        ensures
            final(self)@ == old(self)@.reset_class(),
    {
        self.selected_class = None;
        self.disable_class = None;
        self.missed_class = None;
        self.matched_class = None;
        self.help_class = None;
    }

    /// The hash of the block's cores at `game_level`. Two blocks match at a
    /// level if and only if their hashes at that level are equal.
    pub fn corespace_hash(&self, game_level: GameLevel) -> (hash: CorespaceHash)
        ensures
            hash == self@.hash(game_level),
    {
        corespace_hash_of(&self.corespace, game_level)
    }

    /// The share of occupied cores, in percent, rounded down.
    pub fn corespace_usage(&self) -> (usage: usize)
        requires
            self.corespace.len() > 0,
            self.corespace.len() * 100 <= usize::MAX,
        ensures
            usage == occupied_cores(self@.corespace) * 100 / self@.corespace.len(),
    {
        let mut filled: usize = 0;
        let mut i: usize = 0;
        let ghost occupied = |core: Core| core.para_id is Some;
        proof {
            reveal(Seq::filter);
            assert(self.corespace@.take(0) =~= Seq::<Core>::empty());
        }
        while i < self.corespace.len()
            invariant
                i <= self.corespace.len(),
                filled <= i,
                occupied == |core: Core| core.para_id is Some,
                filled == self.corespace@.take(i as int).filter(occupied).len(),
            decreases self.corespace.len() - i,
        {
            proof {
                reveal(Seq::filter);
                assert(self.corespace@.take(i + 1).drop_last() =~= self.corespace@.take(i as int));
            }
            if self.corespace[i].para_id.is_some() {
                filled = filled + 1;
            }
            i = i + 1;
        }
        assert(self.corespace@.take(i as int) =~= self.corespace@);
        filled * 100 / self.corespace.len()
    }

    /// The number of places of the block's square that no core fills. The
    /// block has no more cores than the square has places.
    pub fn not_available_cores(&self) -> (places: u32)
        requires
            self.corespace.len() <= 64,
        ensures
            places == 64 - self@.corespace.len(),
    {
        let columns = self.runtime.columns_size();
        columns * columns - self.corespace.len() as u32
    }

    /// The label that shows the share of occupied cores.
    pub fn usage_label(&self) -> (label: String)
        requires
            self.corespace.len() > 0,
            self.corespace.len() * 100 <= usize::MAX,
        ensures
            label@ == crate::text::decimal(
                occupied_cores(self@.corespace) * 100 / self@.corespace.len(),
            ) + "%"@,
    {
        let mut label = crate::text::decimal_string(self.corespace_usage() as u64);
        label.append("%");
        label
    }

    /// The label that shows the number of the block.
    pub fn number_label(&self) -> (label: String)
        ensures
            label@ == "#"@ + crate::text::decimal(self@.block_number as nat),
    {
        let mut label = String::from_str("#");
        let number = crate::text::decimal_string(self.block_number as u64);
        label.append(number.as_str());
        label
    }

    /// The cores drawn as squares in rows as wide as the chain's blocks are
    /// drawn.
    pub fn corespace_ascii(&self) -> (art: String)
        ensures
            art@ == ascii_art(self@.corespace, 8),
    {
        let columns = self.runtime.columns_size() as usize;
        let mut art = String::new();
        let mut i: usize = 0;
        assert(self.corespace@.take(0) =~= Seq::<Core>::empty());
        while i < self.corespace.len()
            invariant
                i <= self.corespace.len(),
                columns == 8,
                art@ == ascii_art(self.corespace@.take(i as int), 8),
            decreases self.corespace.len() - i,
        {
            proof {
                assert(self.corespace@.take(i + 1).drop_last() =~= self.corespace@.take(i as int));
            }
            if self.corespace[i].para_id.is_some() {
                art.append("■");
            } else {
                art.append("□");
            }
            if (i + 1) % columns == 0 {
                art.append("\n");
            }
            i = i + 1;
            assert(art@ =~= ascii_art(self.corespace@.take(i as int), 8));
        }
        assert(self.corespace@.take(i as int) =~= self.corespace@);
        art
    }
}

} // verus!
