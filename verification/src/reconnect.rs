//! Reconnect behaviour: re-dials nodes this node had dialed.
//!
//! When a connection that the local node initiated drops, one dial request
//! for the dropped peer's address is queued; connections the peer initiated
//! are not retried. There is no backoff and no retry cap: immediate,
//! unconditional re-dialing is the documented baseline policy.
//! `lemma_reconnect_counts_disconnects` proves that the behaviour delivers
//! one dial per qualifying disconnect and none for anything else, over any
//! interleaving of lifecycle events and polls.

use std::collections::VecDeque;

use vstd::prelude::*;

use crate::types::actions_view;
use crate::types::lemma_actions_view_drop_first;
use crate::types::lemma_actions_view_push;
use crate::types::ActionView;
use crate::types::BehaviourAction;
use crate::types::delivered_events;
use crate::types::ConnectionEndpoint;
use crate::types::DriverStep;
use crate::types::EndpointView;
use crate::types::NetworkEvent;
use crate::types::PeerIdentity;
use crate::types::PollOutcome;

verus! {

/// Model of the reconnect behaviour: the models of its pending dial
/// requests, oldest first.
pub struct ReconnectView {
    pub actions: Seq<ActionView>,
}

/// How one lifecycle event changes the model: a disconnect of a connection
/// this node had dialed queues one dial for that address; everything else
/// changes nothing.
pub open spec fn reconnect_step(s: ReconnectView, event: NetworkEvent) -> ReconnectView {
    match event {
        NetworkEvent::Disconnected { endpoint: EndpointView::Dialer { address }, .. } =>
            ReconnectView { actions: s.actions.push(ActionView::Dial { address }) },
        _ => s,
    }
}

/// A polled run of the reconnect behaviour: its current model and every
/// action the driver has polled out of it so far, oldest first.
pub struct ReconnectTrace {
    pub state: ReconnectView,
    pub emitted: Seq<ActionView>,
}

/// How one driver step changes a polled run: a delivered event steps the
/// behaviour, a poll moves the oldest pending dial — if any — from the
/// queue to the emitted sequence, exactly as the `poll` contract says.
pub open spec fn reconnect_trace_step(t: ReconnectTrace, step: DriverStep) -> ReconnectTrace {
    match step {
        DriverStep::Deliver { event } => ReconnectTrace {
            state: reconnect_step(t.state, event),
            emitted: t.emitted,
        },
        DriverStep::Poll => if t.state.actions.len() > 0 {
            ReconnectTrace {
                state: ReconnectView { actions: t.state.actions.drop_first() },
                emitted: t.emitted.push(t.state.actions[0]),
            }
        } else {
            t
        },
    }
}

/// The polled run after a whole sequence of driver steps, first step first.
pub open spec fn reconnect_trace_run(t: ReconnectTrace, steps: Seq<DriverStep>) -> ReconnectTrace
    decreases steps.len(),
{
    if steps.len() == 0 {
        t
    } else {
        reconnect_trace_run(reconnect_trace_step(t, steps[0]), steps.drop_first())
    }
}

/// How many dial actions for `address` a queue model holds.
pub open spec fn count_dials_for(q: Seq<ActionView>, address: Seq<char>) -> nat
    decreases q.len(),
{
    if q.len() == 0 {
        0
    } else {
        count_dials_for(q.drop_last(), address) + if q.last() == (ActionView::Dial { address }) {
            1nat
        } else {
            0nat
        }
    }
}

/// How many disconnects of dialed-out connections to `address` an event
/// sequence holds.
pub open spec fn count_dialer_disconnects(events: Seq<NetworkEvent>, address: Seq<char>) -> nat
    decreases events.len(),
{
    if events.len() == 0 {
        0
    } else {
        (if events[0] matches NetworkEvent::Disconnected {
            endpoint: EndpointView::Dialer { address: a },
            ..
        } && a == address {
            1nat
        } else {
            0nat
        }) + count_dialer_disconnects(events.drop_first(), address)
    }
}

proof fn lemma_count_dials_push(q: Seq<ActionView>, a: ActionView, address: Seq<char>)
    ensures
        count_dials_for(q.push(a), address) == count_dials_for(q, address) + if a == (
        ActionView::Dial { address }) {
            1nat
        } else {
            0nat
        },
{
    assert(q.push(a).drop_last() =~= q);
}

proof fn lemma_count_dials_first(q: Seq<ActionView>, address: Seq<char>)
    requires
        q.len() > 0,
    ensures
        count_dials_for(q, address) == count_dials_for(q.drop_first(), address) + if q[0] == (
        ActionView::Dial { address }) {
            1nat
        } else {
            0nat
        },
    decreases q.len(),
{
    if q.len() == 1 {
        assert(q.drop_last() =~= Seq::<ActionView>::empty());
        assert(q.drop_first() =~= Seq::<ActionView>::empty());
    } else {
        lemma_count_dials_first(q.drop_last(), address);
        assert(q.drop_last().drop_first() =~= q.drop_first().drop_last());
        assert(q.drop_last()[0] == q[0]);
        assert(q.drop_first().last() == q.last());
    }
}

/// Law: for every sequence of lifecycle events and polls fed to the
/// reconnect behaviour, the dial actions for an address emitted and those
/// still queued together number exactly the `Disconnected` events whose
/// endpoint records that this node had dialed that address. In particular a
/// connect alone emits nothing — the one dial appears only after the
/// qualifying disconnect — and a disconnect of a connection the peer
/// initiated emits nothing.
pub proof fn lemma_reconnect_counts_disconnects(
    t: ReconnectTrace,
    steps: Seq<DriverStep>,
    address: Seq<char>,
)
    ensures
        count_dials_for(reconnect_trace_run(t, steps).emitted, address) + count_dials_for(
            reconnect_trace_run(t, steps).state.actions,
            address,
        ) == count_dials_for(t.emitted, address) + count_dials_for(t.state.actions, address)
            + count_dialer_disconnects(delivered_events(steps), address),
    decreases steps.len(),
{
    if steps.len() > 0 {
        let t2 = reconnect_trace_step(t, steps[0]);
        match steps[0] {
            DriverStep::Deliver { event } => {
                assert((seq![event] + delivered_events(steps.drop_first())).drop_first()
                    =~= delivered_events(steps.drop_first()));
                match event {
                    NetworkEvent::Disconnected {
                        endpoint: EndpointView::Dialer { address: a },
                        ..
                    } => {
                        lemma_count_dials_push(
                            t.state.actions,
                            ActionView::Dial { address: a },
                            address,
                        );
                    },
                    _ => {},
                }
            },
            DriverStep::Poll => {
                if t.state.actions.len() > 0 {
                    lemma_count_dials_first(t.state.actions, address);
                    lemma_count_dials_push(t.emitted, t.state.actions[0], address);
                }
            },
        }
        lemma_reconnect_counts_disconnects(t2, steps.drop_first(), address);
    }
}

/// Network behaviour that re-connects to dialed nodes if the connection is
/// dropped.
pub struct ReconnectBehaviour {
    network_actions: VecDeque<BehaviourAction>,
}

impl View for ReconnectBehaviour {
    type V = ReconnectView;

    closed spec fn view(&self) -> ReconnectView {
        ReconnectView { actions: actions_view(self.network_actions@) }
    }
}

impl ReconnectBehaviour {
    /// A behaviour with nothing pending yet.
    pub fn new() -> (r: ReconnectBehaviour)
        ensures
            r@.actions == Seq::<ActionView>::empty(),
    {
        let r = ReconnectBehaviour { network_actions: VecDeque::new() };
        proof {
            assert(r@.actions =~= Seq::<ActionView>::empty());
        }
        r
    }

    /// This behaviour learns no addresses: it has none to offer the
    /// connection manager.
    pub fn addresses_of_peer(&self, peer_id: &PeerIdentity) -> (r: Vec<crate::types::NetworkAddress>)
        ensures
            r@.len() == 0,
    {
        Vec::new()
    }

    /// A new connection needs no reaction: only its loss does.
    pub fn inject_connected(&mut self, peer_id: &PeerIdentity, endpoint: &ConnectionEndpoint)
        ensures
            final(self)@ == reconnect_step(
                old(self)@,
                NetworkEvent::Connected { peer: peer_id@, endpoint: endpoint@ },
            ),
    {
    }

    /// Queues one dial for the dropped peer's address when this node had
    /// initiated the connection; inbound-initiated disconnects are not
    /// retried.
    pub fn inject_disconnected(&mut self, peer_id: &PeerIdentity, endpoint: ConnectionEndpoint)
        ensures
            final(self)@ == reconnect_step(
                old(self)@,
                NetworkEvent::Disconnected { peer: peer_id@, endpoint: endpoint@ },
            ),
    {
        match endpoint {
            ConnectionEndpoint::Dialer { address } => {
                let ghost before = self.network_actions@;
                let action = BehaviourAction::DialAddress { address };
                proof {
                    lemma_actions_view_push(before, action);
                }
                self.network_actions.push_back(action);
            },
            ConnectionEndpoint::Listener { .. } => {},
        }
    }

    /// Hands out the oldest pending dial request, or reports that none is
    /// ready. An empty queue is left exactly as it was: polling it any
    /// number of times stays `Pending` with no side effects.
    pub fn poll(&mut self) -> (r: PollOutcome)
        ensures
            old(self)@.actions.len() == 0 ==> r is Pending && final(self)@ == old(self)@,
            old(self)@.actions.len() > 0 ==> {
                &&& r matches PollOutcome::Ready(action) && action@ == old(self)@.actions[0]
                &&& final(self)@.actions == old(self)@.actions.drop_first()
            },
    {
        let ghost before = self.network_actions@;
        match self.network_actions.pop_front() {
            Some(action) => {
                proof {
                    lemma_actions_view_drop_first(before);
                }
                PollOutcome::Ready(action)
            },
            None => PollOutcome::Pending,
        }
    }
}

} // verus!
