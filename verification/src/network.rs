//! The state of the block feed, as far as the game depends on it.
use vstd::prelude::*;
use std::collections::BTreeMap;
use rand::Rng;
use crate::corespace::{Color, ParaId, ParachainColors, ParachainIds};
use crate::support::SupportedRelayRuntime;

verus! {

/// Identifier of a subscription to a block feed.
pub type SubscriptionId = u32;

/// The signal that tells a feed to stop.
pub const STOP_SIGNAL: &'static str = "stop";

/// The signal that tells a feed to go on.
pub const CONTINUE_SIGNAL: &'static str = "continue";

/// How far the block feed is.
#[derive(Debug, Clone, Copy, PartialEq, Eq, Structural)]
pub enum NetworkStatus {
    Initializing,
    Switching,
    Active,
    Inactive,
}

/// The feed the game listens to.
pub struct NetworkState {
    /// How far the feed is.
    pub status: NetworkStatus,
    /// The subscription whose blocks are taken, once there is one.
    pub subscription_id: Option<SubscriptionId>,
    /// The chain that the feed follows.
    pub runtime: SupportedRelayRuntime,
    /// The colour of each parachain of the chain.
    pub parachain_colors: ParachainColors,
}

/// A feed's state as a mathematical value.
pub struct NetworkStateView {
    pub status: NetworkStatus,
    pub subscription_id: Option<SubscriptionId>,
    pub runtime: SupportedRelayRuntime,
    pub parachain_colors: Map<ParaId, Color>,
}

impl NetworkStateView {
    /// Whether blocks of subscription `id` are taken: the feed is active
    /// and `id` is its subscription.
    pub open spec fn is_valid(self, id: SubscriptionId) -> bool {
        self.status is Active && self.subscription_id == Some(id)
    }
}

impl View for NetworkState {
    type V = NetworkStateView;

    open spec fn view(&self) -> NetworkStateView {
        NetworkStateView {
            status: self.status,
            subscription_id: self.subscription_id,
            runtime: self.runtime,
            parachain_colors: self.parachain_colors@,
        }
    }
}

impl Clone for NetworkState {
    fn clone(&self) -> (copy: Self)
        ensures
            copy@ == self@,
    {
        NetworkState {
            status: self.status,
            subscription_id: self.subscription_id,
            runtime: self.runtime,
            parachain_colors: self.parachain_colors.clone(),
        }
    }
}

impl NetworkState {
    /// A feed of `runtime` that has not started yet.
    pub fn new(runtime: SupportedRelayRuntime) -> (state: Self)
        ensures
            state@ == (NetworkStateView {
                status: NetworkStatus::Initializing,
                subscription_id: None,
                runtime,
                parachain_colors: Map::empty(),
            }),
    {
        Self {
            status: NetworkStatus::Initializing,
            subscription_id: None,
            runtime,
            parachain_colors: BTreeMap::new(),
        }
    }

    pub fn is_initializing(&self) -> (b: bool)
        ensures
            b == (self.status is Initializing),
    {
        self.status == NetworkStatus::Initializing
    }

    pub fn is_active(&self) -> (b: bool)
        ensures
            b == (self.status is Active),
    {
        self.status == NetworkStatus::Active
    }

    pub fn is_switching(&self) -> (b: bool)
        ensures
            b == (self.status is Switching),
    {
        self.status == NetworkStatus::Switching
    }

    /// Whether blocks of subscription `id` are taken.
    pub fn is_valid(&self, id: SubscriptionId) -> (b: bool)
        ensures
            b == self@.is_valid(id),
    {
        if let Some(subscription_id) = self.subscription_id {
            self.status == NetworkStatus::Active && subscription_id == id
        } else {
            false
        }
    }

    /// The style class of the feed's chain.
    pub fn class(&self) -> (class: String)
        ensures
            class@ == self.runtime.spec_class(),
    {
        self.runtime.class()
    }
}

/// The generator of random numbers of the thread.
#[verifier::external_type_specification]
#[verifier::external_body]
pub struct ExThreadRng(rand::rngs::ThreadRng);

/// Calls `rand::thread_rng`, which hands out the generator of the thread.
/// Nothing is claimed of it.
#[verifier::external_body]
pub(crate) fn thread_rng() -> rand::rngs::ThreadRng {
    rand::thread_rng()
}

/// Calls `Rng::gen_range` of `rand` on the range from 0 up to, and without,
/// `bound`. Believed, not proved: the number drawn lies in that range. The
/// call panics on an empty range, so `bound` is above 0.
#[verifier::external_body]
pub(crate) fn gen_index(rng: &mut rand::rngs::ThreadRng, bound: usize) -> (index: usize)
    requires
        bound > 0,
    ensures
        index < bound,
{
    rng.gen_range(0..bound)
}

/// Colour `k` of a palette of `total` colours: the hues are spread over the
/// colour circle in steps of whole degrees.
pub open spec fn palette_color(total: nat, k: int) -> Color {
    ((360int / (total as int) * k) as u32, 96, 68)
}

/// Whether `order` draws every colour of a palette of `total` colours
/// once.
pub open spec fn is_draw(order: Seq<int>, total: nat) -> bool {
    &&& order.len() == total
    &&& order.no_duplicates()
    &&& forall|j: int| 0 <= j < order.len() ==> 0 <= #[trigger] order[j] < total
}

/// The colours of the parachains when parachain `j` of `para_ids` gets the
/// colour that `order` draws in place `j`. Of a parachain listed twice
/// the later place counts.
pub open spec fn assigned(para_ids: Seq<ParaId>, order: Seq<int>, total: nat) -> Map<
    ParaId,
    Color,
>
    decreases para_ids.len(),
{
    if para_ids.len() == 0 {
        Map::empty()
    } else {
        assigned(para_ids.drop_last(), order.drop_last(), total).insert(
            para_ids.last(),
            palette_color(total, order.last()),
        )
    }
}

/// Whether `colors` hands out a palette of as many colours as `para_ids`
/// has entries, one colour to each entry, in some order.
pub open spec fn palette_assigned(para_ids: Seq<ParaId>, colors: Map<ParaId, Color>) -> bool {
    exists|order: Seq<int>| #[trigger]
        is_draw(order, para_ids.len()) && colors == assigned(para_ids, order, para_ids.len())
}

/// The colours handed out for `para_ids` along `order` give every
/// parachain listed a colour of the palette, and no other parachain one.
pub proof fn lemma_assigned_covers(para_ids: Seq<ParaId>, order: Seq<int>, total: nat)
    requires
        order.len() == para_ids.len(),
        forall|j: int| 0 <= j < order.len() ==> 0 <= #[trigger] order[j] < total,
    ensures
        assigned(para_ids, order, total).dom() =~= para_ids.to_set(),
        forall|id: ParaId| #[trigger]
            assigned(para_ids, order, total).contains_key(id) ==> exists|k: int|
                0 <= k < total && assigned(para_ids, order, total)[id] == #[trigger] palette_color(
                    total,
                    k,
                ),
    decreases para_ids.len(),
{
    if para_ids.len() > 0 {
        let earlier = assigned(para_ids.drop_last(), order.drop_last(), total);
        lemma_assigned_covers(para_ids.drop_last(), order.drop_last(), total);
        let colors = assigned(para_ids, order, total);
        assert forall|id: ParaId| colors.dom().contains(id) <==> para_ids.to_set().contains(
            id,
        ) by {
            if para_ids.contains(id) {
                let j = choose|j: int| 0 <= j < para_ids.len() && para_ids[j] == id;
                if j < para_ids.len() - 1 {
                    assert(para_ids.drop_last()[j] == id);
                    assert(para_ids.drop_last().contains(id));
                }
            }
            if para_ids.drop_last().contains(id) {
                let j = choose|j: int|
                    0 <= j < para_ids.drop_last().len() && para_ids.drop_last()[j] == id;
                assert(para_ids[j] == id);
            }
        }
        assert forall|id: ParaId| #[trigger] colors.contains_key(id) implies exists|k: int|
            0 <= k < total && colors[id] == #[trigger] palette_color(total, k) by {
            if id == para_ids.last() {
                assert(colors[id] == palette_color(total, order.last()));
            } else {
                assert(earlier.contains_key(id));
            }
        }
    } else {
        assert(para_ids.to_set() =~= Set::<ParaId>::empty());
    }
}

/// Colours that are handed out for `para_ids` give every parachain listed
/// a colour of the palette, and no other parachain one.
pub proof fn law_colors_cover_parachains(para_ids: Seq<ParaId>, colors: Map<ParaId, Color>)
    requires
        palette_assigned(para_ids, colors),
    ensures
        colors.dom() =~= para_ids.to_set(),
        forall|id: ParaId| #[trigger]
            colors.contains_key(id) ==> exists|k: int|
                0 <= k < para_ids.len() && colors[id] == #[trigger] palette_color(
                    para_ids.len(),
                    k,
                ),
{
    let order = choose|order: Seq<int>| #[trigger]
        is_draw(order, para_ids.len()) && colors == assigned(para_ids, order, para_ids.len());
    lemma_assigned_covers(para_ids, order, para_ids.len());
}

/// A hue of the palette is a whole number of degrees up to 360.
proof fn lemma_hue_bound(total: int, k: int)
    requires
        0 <= k < total,
    ensures
        0 <= 360int / total * k <= 360,
{
    let step = 360int / total;
    assert(step * total <= 360) by (nonlinear_arith)
        requires
            step == 360int / total,
            total > 0,
    ;
    assert(0 <= step * k <= step * total) by (nonlinear_arith)
        requires
            0 <= k < total,
            step >= 0,
    ;
}

/// The colours of a palette of `total` colours, in their order.
fn palette(total: usize) -> (colors: Vec<Color>)
    ensures
        colors@.len() == total,
        forall|k: int| 0 <= k < total ==> colors@[k] == palette_color(total as nat, k),
{
    let mut colors: Vec<Color> = Vec::new();
    let mut i: usize = 0;
    while i < total
        invariant
            i <= total,
            colors@.len() == i,
            forall|k: int| 0 <= k < i ==> colors@[k] == palette_color(total as nat, k),
        decreases total - i,
    {
        proof {
            lemma_hue_bound(total as int, i as int);
        }
        let hue = 360 / total * i;
        colors.push((hue as u32, 96u32, 68u32));
        i = i + 1;
    }
    colors
}

/// Gives each parachain a colour of its own, drawn at random from a
/// palette of as many colours as there are parachains.
pub fn generate_parachain_colors(para_ids: ParachainIds) -> (colors: ParachainColors)
    ensures
        palette_assigned(para_ids@, colors@),
{
    let total = para_ids.len();
    let mut left = palette(total);
    let mut rng = thread_rng();
    let mut colors: ParachainColors = BTreeMap::new();
    let ghost mut places: Seq<int> = Seq::new(total as nat, |k: int| k);
    let ghost mut order: Seq<int> = Seq::empty();
    let mut j: usize = 0;
    assert(para_ids@.take(0) =~= Seq::<ParaId>::empty());
    while j < total
        invariant
            j <= total,
            total == para_ids@.len(),
            left@.len() == total - j,
            places.len() == total - j,
            forall|t: int|
                0 <= t < places.len() ==> 0 <= #[trigger] places[t] < total && left@[t]
                    == palette_color(total as nat, places[t]),
            places.no_duplicates(),
            order.len() == j,
            order.no_duplicates(),
            forall|t: int| 0 <= t < order.len() ==> 0 <= #[trigger] order[t] < total,
            forall|a: int, b: int|
                0 <= a < order.len() && 0 <= b < places.len() ==> #[trigger] order[a]
                    != #[trigger] places[b],
            colors@ == assigned(para_ids@.take(j as int), order, total as nat),
        decreases total - j,
    {
        let i = gen_index(&mut rng, left.len());
        let color = left.remove(i);
        colors.insert(para_ids[j], color);
        proof {
            let place = places[i as int];
            let drawn = order.push(place);
            assert(drawn.drop_last() =~= order);
            assert(para_ids@.take(j + 1).drop_last() =~= para_ids@.take(j as int));
            assert(colors@ == assigned(para_ids@.take(j + 1), drawn, total as nat));
            order = drawn;
            places = places.remove(i as int);
        }
        j = j + 1;
    }
    proof {
        assert(para_ids@.take(j as int) =~= para_ids@);
        assert(is_draw(order, para_ids@.len()));
    }
    colors
}

} // verus!
