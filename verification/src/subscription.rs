//! What the provider of the block feed decides: when to connect, when to
//! subscribe, and which signal the task of a subscription gets. The
//! provider's surroundings do the work and report back what happened.
use vstd::prelude::*;
use vstd::string::StringExecFns;
use crate::network::SubscriptionId;
use crate::support::SupportedRelayRuntime;

verus! {

/// A signal to the task of a subscription.
#[derive(Debug, Clone, Copy, PartialEq, Eq, Structural)]
pub enum Signal {
    /// Drop the subscription.
    Stop,
    /// Go on with the next block.
    Continue,
}

/// What has happened around the provider.
#[derive(Debug, Clone, Copy, PartialEq, Eq, Structural)]
pub enum Event {
    /// A connection to the node of the chain stands.
    ClientCreated,
    /// The parachains of the chain have been fetched.
    ParachainsCollected,
    /// A subscription has been set up, and the channel to its task is at
    /// hand.
    SubscriptionCreated(SubscriptionId),
    /// The subscription has handed over a block.
    DataReceived,
    /// The feed is to follow the given chain from now on.
    ContextChanged(SupportedRelayRuntime),
}

/// What the provider asks its surroundings to do.
#[derive(Debug, Clone, Copy, PartialEq, Eq, Structural)]
pub enum Action {
    /// Connect to the node of the chain.
    Connect(SupportedRelayRuntime),
    /// Fetch the parachains of the chain.
    FetchParachains(SupportedRelayRuntime),
    /// Subscribe to the finalized blocks of the chain.
    Subscribe(SupportedRelayRuntime),
    /// Hand the parachains that were fetched to the game.
    EmitParachains,
    /// Hand the subscription to the game.
    EmitSubscription(SubscriptionId),
    /// Hand the block that came to the game.
    EmitBlock,
    /// Send the signal to the task of the subscription.
    Send(Signal),
}

/// The provider of the feed: the chain it follows, and whether a channel
/// to the task of a subscription is at hand.
#[derive(Debug, Clone, Copy, PartialEq, Eq, Structural)]
pub struct Provider {
    pub runtime: SupportedRelayRuntime,
    pub has_channel: bool,
}

impl Provider {
    /// The signal `signal`, if there is a channel to send it through.
    pub open spec fn signalled(self, signal: Signal) -> Seq<Action> {
        if self.has_channel {
            seq![Action::Send(signal)]
        } else {
            Seq::empty()
        }
    }

    /// The provider after `event`.
    pub open spec fn after(self, event: Event) -> Provider {
        match event {
            Event::SubscriptionCreated(_) => Provider { has_channel: true, ..self },
            Event::ContextChanged(runtime) => Provider { runtime, ..self },
            _ => self,
        }
    }

    /// What is to be done about `event`, in this order. A connection is
    /// used at once to fetch the parachains and to subscribe. A new
    /// subscription goes to the game, and its task is told to go on. A
    /// block lets the task go on to the next and goes to the game. When the
    /// chain changes, the task is told to stop and a connection to the
    /// other chain is made.
    pub open spec fn actions(self, event: Event) -> Seq<Action> {
        match event {
            Event::ClientCreated => seq![
                Action::FetchParachains(self.runtime),
                Action::Subscribe(self.runtime),
            ],
            Event::ParachainsCollected => seq![Action::EmitParachains],
            Event::SubscriptionCreated(id) => seq![
                Action::EmitSubscription(id),
                Action::Send(Signal::Continue),
            ],
            Event::DataReceived => self.signalled(Signal::Continue) + seq![Action::EmitBlock],
            Event::ContextChanged(runtime) => if runtime != self.runtime {
                self.signalled(Signal::Stop) + seq![Action::Connect(runtime)]
            } else {
                Seq::empty()
            },
        }
    }

    /// The provider of a feed of `runtime`; the first thing to do is to
    /// connect.
    pub fn new(runtime: SupportedRelayRuntime) -> (start: (Self, Action))
        ensures
            start.0 == (Provider { runtime, has_channel: false }),
            start.1 == Action::Connect(runtime),
    {
        (Provider { runtime, has_channel: false }, Action::Connect(runtime))
    }

    /// Takes note of `event` and tells what is to be done about it.
    pub fn update(&mut self, event: Event) -> (actions: Vec<Action>)
        ensures
            *final(self) == old(self).after(event),
            actions@ == old(self).actions(event),
    {
        let mut actions: Vec<Action> = Vec::new();
        match event {
            Event::ClientCreated => {
                actions.push(Action::FetchParachains(self.runtime));
                actions.push(Action::Subscribe(self.runtime));
            },
            Event::ParachainsCollected => {
                actions.push(Action::EmitParachains);
            },
            Event::SubscriptionCreated(id) => {
                self.has_channel = true;
                actions.push(Action::EmitSubscription(id));
                actions.push(Action::Send(Signal::Continue));
            },
            Event::DataReceived => {
                if self.has_channel {
                    actions.push(Action::Send(Signal::Continue));
                }
                actions.push(Action::EmitBlock);
            },
            Event::ContextChanged(runtime) => {
                if runtime != self.runtime {
                    if self.has_channel {
                        actions.push(Action::Send(Signal::Stop));
                    }
                    actions.push(Action::Connect(runtime));
                }
                self.runtime = runtime;
            },
        }
        assert(actions@ =~= old(self).actions(event));
        actions
    }
}

impl Signal {
    /// The text that stands for the signal on the channel.
    pub fn text(&self) -> (text: &'static str)
        ensures
            text@ == match self {
                Signal::Stop => crate::network::STOP_SIGNAL@,
                Signal::Continue => crate::network::CONTINUE_SIGNAL@,
            },
    {
        match self {
            Signal::Stop => crate::network::STOP_SIGNAL,
            Signal::Continue => crate::network::CONTINUE_SIGNAL,
        }
    }

    /// Whether `text` tells the task of a subscription to stop.
    pub fn is_stop(text: &str) -> (stop: bool)
        ensures
            stop == (text@ == crate::network::STOP_SIGNAL@),
    {
        String::from_str(text) == String::from_str(crate::network::STOP_SIGNAL)
    }
}

} // verus!
