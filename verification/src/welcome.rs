//! Welcome behaviour: greets every node that connects.
//!
//! On every new connection, inbound or outbound, it queues exactly one
//! outbound greeting; a greeting received from a peer is surfaced to the
//! application as an emitted event. `lemma_welcome_counts_connections`
//! proves the one-greeting-per-connection law over any interleaving of
//! lifecycle events and polls.

use std::collections::VecDeque;

use vstd::prelude::*;

use crate::handler::OneShotExchange;
use crate::simple::SimpleProtocolEvent;
use crate::simple::SimpleProtocolMessage;
use crate::types::actions_view;
use crate::types::lemma_actions_view_drop_first;
use crate::types::lemma_actions_view_push;
use crate::types::ActionView;
use crate::types::BehaviourAction;
use crate::types::delivered_events;
use crate::types::ConnectionEndpoint;
use crate::types::DriverStep;
use crate::types::NetworkEvent;
use crate::types::PeerIdentity;
use crate::types::PollOutcome;
use crate::types::ProtocolEventView;

verus! {

/// Model of the welcome behaviour: its fixed greeting and the models of its
/// pending actions, oldest first.
pub struct WelcomeView {
    pub greeting: Seq<char>,
    pub actions: Seq<ActionView>,
}

/// How one lifecycle event changes the model: a connection queues one
/// greeting; a received greeting queues one emitted event; everything else
/// changes nothing.
pub open spec fn welcome_step(s: WelcomeView, event: NetworkEvent) -> WelcomeView {
    match event {
        NetworkEvent::Connected { peer, .. } => WelcomeView {
            greeting: s.greeting,
            actions: s.actions.push(ActionView::Send { peer, message: s.greeting }),
        },
        NetworkEvent::Disconnected { .. } => s,
        NetworkEvent::NodeEvent { event, .. } => match event {
            ProtocolEventView::Received { message } => WelcomeView {
                greeting: s.greeting,
                actions: s.actions.push(ActionView::Emit { payload: message }),
            },
            ProtocolEventView::Sent => s,
        },
    }
}

/// A polled run of the welcome behaviour: its current model and every
/// action the driver has polled out of it so far, oldest first.
pub struct WelcomeTrace {
    pub state: WelcomeView,
    pub emitted: Seq<ActionView>,
}

/// How one driver step changes a polled run: a delivered event steps the
/// behaviour, a poll moves the oldest pending action — if any — from the
/// queue to the emitted sequence, exactly as the `poll` contract says.
pub open spec fn welcome_trace_step(t: WelcomeTrace, step: DriverStep) -> WelcomeTrace {
    match step {
        DriverStep::Deliver { event } => WelcomeTrace {
            state: welcome_step(t.state, event),
            emitted: t.emitted,
        },
        DriverStep::Poll => if t.state.actions.len() > 0 {
            WelcomeTrace {
                state: WelcomeView {
                    greeting: t.state.greeting,
                    actions: t.state.actions.drop_first(),
                },
                emitted: t.emitted.push(t.state.actions[0]),
            }
        } else {
            t
        },
    }
}

/// The polled run after a whole sequence of driver steps, first step first.
pub open spec fn welcome_trace_run(t: WelcomeTrace, steps: Seq<DriverStep>) -> WelcomeTrace
    decreases steps.len(),
{
    if steps.len() == 0 {
        t
    } else {
        welcome_trace_run(welcome_trace_step(t, steps[0]), steps.drop_first())
    }
}

/// How many send actions a queue model holds.
pub open spec fn count_send_actions(q: Seq<ActionView>) -> nat
    decreases q.len(),
{
    if q.len() == 0 {
        0
    } else {
        count_send_actions(q.drop_last()) + if q.last() is Send {
            1nat
        } else {
            0nat
        }
    }
}

/// How many connection events an event sequence holds.
pub open spec fn count_connected_events(events: Seq<NetworkEvent>) -> nat
    decreases events.len(),
{
    if events.len() == 0 {
        0
    } else {
        (if events[0] is Connected {
            1nat
        } else {
            0nat
        }) + count_connected_events(events.drop_first())
    }
}

proof fn lemma_count_send_push(q: Seq<ActionView>, a: ActionView)
    ensures
        count_send_actions(q.push(a)) == count_send_actions(q) + if a is Send {
            1nat
        } else {
            0nat
        },
{
    assert(q.push(a).drop_last() =~= q);
}

proof fn lemma_count_send_first(q: Seq<ActionView>)
    requires
        q.len() > 0,
    ensures
        count_send_actions(q) == count_send_actions(q.drop_first()) + if q[0] is Send {
            1nat
        } else {
            0nat
        },
    decreases q.len(),
{
    if q.len() == 1 {
        assert(q.drop_last() =~= Seq::<ActionView>::empty());
        assert(q.drop_first() =~= Seq::<ActionView>::empty());
    } else {
        lemma_count_send_first(q.drop_last());
        assert(q.drop_last().drop_first() =~= q.drop_first().drop_last());
        assert(q.drop_last()[0] == q[0]);
        assert(q.drop_first().last() == q.last());
    }
}

/// Law: for every sequence of lifecycle events and polls fed to the welcome
/// behaviour, the send actions emitted and those still queued together
/// number exactly the `Connected` events delivered — one greeting per
/// connection, inbound or outbound, no more and no fewer. In particular a
/// run that starts empty and is polled to exhaustion has emitted exactly
/// one `SendMessage` per connection.
pub proof fn lemma_welcome_counts_connections(t: WelcomeTrace, steps: Seq<DriverStep>)
    ensures
        count_send_actions(welcome_trace_run(t, steps).emitted) + count_send_actions(
            welcome_trace_run(t, steps).state.actions,
        ) == count_send_actions(t.emitted) + count_send_actions(t.state.actions)
            + count_connected_events(delivered_events(steps)),
    decreases steps.len(),
{
    if steps.len() > 0 {
        let t2 = welcome_trace_step(t, steps[0]);
        match steps[0] {
            DriverStep::Deliver { event } => {
                assert((seq![event] + delivered_events(steps.drop_first())).drop_first()
                    =~= delivered_events(steps.drop_first()));
                match event {
                    NetworkEvent::Connected { peer, .. } => {
                        lemma_count_send_push(
                            t.state.actions,
                            ActionView::Send { peer, message: t.state.greeting },
                        );
                    },
                    NetworkEvent::Disconnected { .. } => {},
                    NetworkEvent::NodeEvent { event, .. } => {
                        match event {
                            ProtocolEventView::Received { message } => {
                                lemma_count_send_push(
                                    t.state.actions,
                                    ActionView::Emit { payload: message },
                                );
                            },
                            ProtocolEventView::Sent => {},
                        }
                    },
                }
            },
            DriverStep::Poll => {
                if t.state.actions.len() > 0 {
                    lemma_count_send_first(t.state.actions);
                    lemma_count_send_push(t.emitted, t.state.actions[0]);
                }
            },
        }
        lemma_welcome_counts_connections(t2, steps.drop_first());
    }
}

/// Network behaviour that sends a single welcome message to every node which
/// connects, and surfaces received greetings to the application.
pub struct WelcomeBehaviour {
    welcome_message: String,
    network_actions: VecDeque<BehaviourAction>,
}

impl View for WelcomeBehaviour {
    type V = WelcomeView;

    closed spec fn view(&self) -> WelcomeView {
        WelcomeView {
            greeting: self.welcome_message@,
            actions: actions_view(self.network_actions@),
        }
    }
}

impl WelcomeBehaviour {
    /// A behaviour that will greet every connection with `welcome_message`.
    pub fn new(welcome_message: String) -> (r: Self)
        ensures
            r@.greeting == welcome_message@,
            r@.actions == Seq::<ActionView>::empty(),
    {
        let r = WelcomeBehaviour { welcome_message, network_actions: VecDeque::new() };
        proof {
            assert(r@.actions =~= Seq::<ActionView>::empty());
        }
        r
    }

    /// A fresh one-shot exchange for a new connection's greeting.
    pub fn new_handler(&self) -> (r: OneShotExchange)
        ensures
            r@ is Idle,
    {
        OneShotExchange::new()
    }

    /// This behaviour learns no addresses: it has none to offer the
    /// connection manager.
    pub fn addresses_of_peer(&self, peer_id: &PeerIdentity) -> (r: Vec<crate::types::NetworkAddress>)
        ensures
            r@.len() == 0,
    {
        Vec::new()
    }

    /// Queues one greeting for the newly connected peer, whichever side
    /// initiated the connection.
    pub fn inject_connected(&mut self, peer_id: PeerIdentity, endpoint: &ConnectionEndpoint)
        ensures
            final(self)@ == welcome_step(
                old(self)@,
                NetworkEvent::Connected { peer: peer_id@, endpoint: endpoint@ },
            ),
    {
        let ghost before = self.network_actions@;
        let message = SimpleProtocolMessage::new(self.welcome_message.clone());
        let action = BehaviourAction::SendMessage { peer: peer_id, message };
        proof {
            lemma_actions_view_push(before, action);
        }
        self.network_actions.push_back(action);
    }

    /// A disconnect needs no reaction from this behaviour.
    pub fn inject_disconnected(&mut self, peer_id: &PeerIdentity, endpoint: &ConnectionEndpoint)
        ensures
            final(self)@ == welcome_step(
                old(self)@,
                NetworkEvent::Disconnected { peer: peer_id@, endpoint: endpoint@ },
            ),
    {
    }

    /// Surfaces a received greeting as an application event; a completed
    /// send needs no further action.
    pub fn inject_node_event(&mut self, peer_id: &PeerIdentity, event: SimpleProtocolEvent)
        ensures
            final(self)@ == welcome_step(
                old(self)@,
                NetworkEvent::NodeEvent { peer: peer_id@, event: event@ },
            ),
    {
        match event {
            SimpleProtocolEvent::Received(message) => {
                let ghost before = self.network_actions@;
                let action = BehaviourAction::EmitEvent { payload: message };
                proof {
                    lemma_actions_view_push(before, action);
                }
                self.network_actions.push_back(action);
            },
            SimpleProtocolEvent::Sent => {},
        }
    }

    /// Hands out the oldest pending action, or reports that none is ready.
    /// An empty queue is left exactly as it was: polling it any number of
    /// times stays `Pending` with no side effects.
    pub fn poll(&mut self) -> (r: PollOutcome)
        ensures
            old(self)@.actions.len() == 0 ==> r is Pending && final(self)@ == old(self)@,
            old(self)@.actions.len() > 0 ==> {
                &&& r matches PollOutcome::Ready(action) && action@ == old(self)@.actions[0]
                &&& final(self)@.actions == old(self)@.actions.drop_first()
                &&& final(self)@.greeting == old(self)@.greeting
            },
    {
        let ghost before = self.network_actions@;
        match self.network_actions.pop_front() {
            Some(action) => {
                proof {
                    lemma_actions_view_drop_first(before);
                }
                PollOutcome::Ready(action)
            },
            None => PollOutcome::Pending,
        }
    }
}

} // verus!
