//! What is decided about the blocks of a feed before they reach the game:
//! which earlier blocks to fetch, and which cores of a block to keep.
use vstd::prelude::*;
use crate::block::{Block, BlockNumber, BlockState};
use crate::corespace::{Core, Corespace, ParaId};
use crate::network::{gen_index, thread_rng};
use crate::support::SupportedRelayRuntime;
use crate::utils::{get_para_id_from_storage_key, last_four, le_u32};

verus! {

/// The number of cores of a block that are shown; further cores are left
/// out.
pub const DEFAULT_TOTAL_CORES: u32 = 64;

/// The first identifier that a new item of the collection can get.
pub const FIRST_NFT_ID: u32 = 100000;

/// The number of identifiers that a new item of the collection can get.
pub const NFT_IDS: u32 = 100000;

/// The cores that are kept of a block whose cores have `occupants`: the
/// first of them, each with its place.
pub open spec fn kept_cores(occupants: Seq<Option<ParaId>>) -> Seq<Core> {
    Seq::new(
        if occupants.len() <= DEFAULT_TOTAL_CORES {
            occupants.len()
        } else {
            DEFAULT_TOTAL_CORES as nat
        },
        |i: int| Core { index: i as usize, para_id: occupants[i] },
    )
}

/// The numbers of the `count` blocks before block `latest`, the oldest
/// first.
pub open spec fn blocks_before(latest: BlockNumber, count: u32) -> Seq<BlockNumber> {
    Seq::new(count as nat, |i: int| (latest - count + i) as u32)
}

/// The cores of a block from the occupants of its cores, in their order.
/// No more cores are kept than are shown.
pub fn corespace_of(occupants: Vec<Option<ParaId>>) -> (corespace: Corespace)
    ensures
        corespace@ == kept_cores(occupants@),
{
    let mut corespace: Corespace = Vec::new();
    let mut i: usize = 0;
    while i < occupants.len() && i < DEFAULT_TOTAL_CORES as usize
        invariant
            i <= occupants.len(),
            i <= DEFAULT_TOTAL_CORES,
            corespace@.len() == i,
            forall|j: int|
                0 <= j < i ==> corespace@[j] == (Core { index: j as usize, para_id: occupants@[j] }),
        decreases occupants.len() - i,
    {
        corespace.push(Core::new(i, occupants[i]));
        i = i + 1;
    }
    assert(corespace@ =~= kept_cores(occupants@));
    corespace
}

/// The block of `runtime` with number `block_number` whose cores have
/// `occupants`, as it goes to the game.
pub fn block_of(
    block_number: BlockNumber,
    occupants: Vec<Option<ParaId>>,
    runtime: SupportedRelayRuntime,
) -> (block: Block)
    ensures
        block@ == BlockState::fresh(block_number, kept_cores(occupants@), runtime),
{
    Block::new(block_number, corespace_of(occupants), runtime)
}

/// The numbers of the `count` blocks before block `latest`, the oldest
/// first, so that they reach the game in the order of the chain. The
/// chain has `count` blocks before `latest`.
pub fn previous_block_numbers(latest: BlockNumber, count: u32) -> (numbers: Vec<BlockNumber>)
    requires
        count <= latest,
    ensures
        numbers@ == blocks_before(latest, count),
{
    let mut numbers: Vec<BlockNumber> = Vec::new();
    let mut counter: u32 = count;
    while counter > 0
        invariant
            counter <= count <= latest,
            numbers@.len() == count - counter,
            forall|j: int| 0 <= j < numbers@.len() ==> numbers@[j] == latest - count + j,
        decreases counter,
    {
        numbers.push(latest - counter);
        counter = counter - 1;
    }
    assert(numbers@ =~= blocks_before(latest, count));
    numbers
}

/// The parachains that `keys` end in, one for each key, in the order of
/// the keys.
pub open spec fn ids_of_keys(keys: Seq<Vec<u8>>) -> Seq<ParaId> {
    Seq::new(keys.len(), |i: int| le_u32(last_four(keys[i]@)))
}

/// Whether `ids` stand in rising order.
pub open spec fn is_sorted(ids: Seq<ParaId>) -> bool {
    forall|i: int, j: int| 0 <= i <= j < ids.len() ==> ids[i] <= ids[j]
}

/// Calls `sort` of the standard library on the numbers of `ids`.
/// Believed, not proved: afterwards the same numbers stand in rising
/// order, each as often as before.
#[verifier::external_body]
fn sort(ids: &mut Vec<ParaId>)
    ensures
        is_sorted(final(ids)@),
        final(ids)@.to_multiset() == old(ids)@.to_multiset(),
{
    ids.sort();
}

/// The parachains that the storage keys `keys` end in, in rising order.
/// Every key has four bytes at least.
pub fn fetch_para_ids(keys: Vec<Vec<u8>>) -> (para_ids: Vec<ParaId>)
    requires
        forall|i: int| 0 <= i < keys@.len() ==> (#[trigger] keys@[i]).len() >= 4,
    ensures
        is_sorted(para_ids@),
        para_ids@.to_multiset() == ids_of_keys(keys@).to_multiset(),
{
    let mut para_ids = para_ids_of_keys(keys);
    assert(para_ids@ =~= ids_of_keys(keys@));
    sort(&mut para_ids);
    para_ids
}

/// The parachains that the storage keys `keys` end in, in the order of
/// the keys. Every key has four bytes at least.
pub fn para_ids_of_keys(keys: Vec<Vec<u8>>) -> (para_ids: Vec<ParaId>)
    requires
        forall|i: int| 0 <= i < keys@.len() ==> (#[trigger] keys@[i]).len() >= 4,
    ensures
        para_ids@.len() == keys@.len(),
        forall|i: int|
            0 <= i < keys@.len() ==> #[trigger] para_ids@[i] == le_u32(last_four(keys@[i]@)),
{
    let mut para_ids: Vec<ParaId> = Vec::new();
    let mut i: usize = 0;
    while i < keys.len()
        invariant
            i <= keys.len(),
            forall|k: int| 0 <= k < keys@.len() ==> (#[trigger] keys@[k]).len() >= 4,
            para_ids@.len() == i,
            forall|k: int| 0 <= k < i ==> #[trigger] para_ids@[k] == le_u32(last_four(keys@[k]@)),
        decreases keys.len() - i,
    {
        para_ids.push(get_para_id_from_storage_key(keys[i].clone()));
        i = i + 1;
    }
    para_ids
}

/// The identifier under which the result of an account is kept, and
/// whether an item has to be minted for it: the item that the account
/// has, or else a new one with an identifier drawn at random.
pub fn nft_id_for(existing: Option<u32>) -> (choice: (u32, bool))
    ensures
        match existing {
            Some(id) => choice == (id, false),
            None => choice.1 && FIRST_NFT_ID <= choice.0 < FIRST_NFT_ID + NFT_IDS,
        },
{
    match existing {
        Some(id) => (id, false),
        None => {
            let mut rng = thread_rng();
            let drawn = gen_index(&mut rng, NFT_IDS as usize);
            (FIRST_NFT_ID + drawn as u32, true)
        },
    }
}

} // verus!
