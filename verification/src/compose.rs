//! Behaviour composition: several behaviours behind one poll interface.
//!
//! The composer fans every lifecycle event out to each registered behaviour
//! in registration order, unconditionally — no behaviour's decision depends
//! on an earlier one having consumed the event. Polling asks each behaviour
//! in a fixed order and returns the first action found; a full empty round
//! reports "no action ready" without blocking, and leaves every queue
//! exactly as it was.

use vstd::prelude::*;

use crate::reconnect::reconnect_step;
use crate::reconnect::ReconnectBehaviour;
use crate::reconnect::ReconnectView;
use crate::simple::SimpleProtocolEvent;
use crate::types::ConnectionEndpoint;
use crate::types::NetworkEvent;
use crate::types::PeerIdentity;
use crate::types::PollOutcome;
use crate::welcome::welcome_step;
use crate::welcome::WelcomeBehaviour;
use crate::welcome::WelcomeView;

verus! {

/// Model of the composed behaviour: the models of its members, in
/// registration order.
pub struct ComposedView {
    pub welcome: WelcomeView,
    pub reconnect: ReconnectView,
}

/// Network behaviour composing the welcome and re-connect behaviours into
/// one unit with the same lifecycle and poll contract as each member.
pub struct ComposedBehaviour {
    welcome: WelcomeBehaviour,
    reconnect: ReconnectBehaviour,
}

impl View for ComposedBehaviour {
    type V = ComposedView;

    closed spec fn view(&self) -> ComposedView {
        ComposedView { welcome: self.welcome@, reconnect: self.reconnect@ }
    }
}

impl ComposedBehaviour {
    /// A composed behaviour greeting every connection with
    /// `welcome_message` and re-dialing every dropped outbound connection.
    pub fn new(welcome_message: String) -> (r: Self)
        ensures
            r@.welcome.greeting == welcome_message@,
            r@.welcome.actions.len() == 0,
            r@.reconnect.actions.len() == 0,
    {
        ComposedBehaviour {
            welcome: WelcomeBehaviour::new(welcome_message),
            reconnect: ReconnectBehaviour::new(),
        }
    }

    /// Fans the connection event out to every member, in registration
    /// order: each one steps by its own transition, none is skipped.
    pub fn inject_connected(&mut self, peer_id: PeerIdentity, endpoint: &ConnectionEndpoint)
        ensures
            final(self)@.welcome == welcome_step(
                old(self)@.welcome,
                NetworkEvent::Connected { peer: peer_id@, endpoint: endpoint@ },
            ),
            final(self)@.reconnect == reconnect_step(
                old(self)@.reconnect,
                NetworkEvent::Connected { peer: peer_id@, endpoint: endpoint@ },
            ),
    {
        self.welcome.inject_connected(peer_id.clone(), endpoint);
        self.reconnect.inject_connected(&peer_id, endpoint);
    }

    /// Fans the disconnection event out to every member, in registration
    /// order.
    pub fn inject_disconnected(&mut self, peer_id: &PeerIdentity, endpoint: ConnectionEndpoint)
        ensures
            final(self)@.welcome == welcome_step(
                old(self)@.welcome,
                NetworkEvent::Disconnected { peer: peer_id@, endpoint: endpoint@ },
            ),
            final(self)@.reconnect == reconnect_step(
                old(self)@.reconnect,
                NetworkEvent::Disconnected { peer: peer_id@, endpoint: endpoint@ },
            ),
    {
        self.welcome.inject_disconnected(peer_id, &endpoint);
        self.reconnect.inject_disconnected(peer_id, endpoint);
    }

    /// Hands the protocol notification to the member that owns the greeting
    /// exchange; the re-connect behaviour has no protocol events.
    pub fn inject_node_event(&mut self, peer_id: &PeerIdentity, event: SimpleProtocolEvent)
        ensures
            final(self)@.welcome == welcome_step(
                old(self)@.welcome,
                NetworkEvent::NodeEvent { peer: peer_id@, event: event@ },
            ),
            final(self)@.reconnect == old(self)@.reconnect,
    {
        self.welcome.inject_node_event(peer_id, event);
    }

    /// Polls each member in the fixed registration order and returns the
    /// first pending action; only the member that supplied the action loses
    /// it. A full empty round yields `Pending` and changes nothing: the
    /// driver re-invokes poll when new events occur.
    pub fn poll(&mut self) -> (r: PollOutcome)
        ensures
            old(self)@.welcome.actions.len() > 0 ==> {
                &&& r matches PollOutcome::Ready(action) && action@ == old(
                    self,
                )@.welcome.actions[0]
                &&& final(self)@.welcome.actions == old(self)@.welcome.actions.drop_first()
                &&& final(self)@.welcome.greeting == old(self)@.welcome.greeting
                &&& final(self)@.reconnect == old(self)@.reconnect
            },
            old(self)@.welcome.actions.len() == 0 && old(self)@.reconnect.actions.len() > 0 ==> {
                &&& r matches PollOutcome::Ready(action) && action@ == old(
                    self,
                )@.reconnect.actions[0]
                &&& final(self)@.reconnect.actions == old(self)@.reconnect.actions.drop_first()
                &&& final(self)@.welcome == old(self)@.welcome
            },
            old(self)@.welcome.actions.len() == 0 && old(self)@.reconnect.actions.len() == 0 ==> r
                is Pending && final(self)@ == old(self)@,
    {
        match self.welcome.poll() {
            PollOutcome::Ready(action) => PollOutcome::Ready(action),
            PollOutcome::Pending => self.reconnect.poll(),
        }
    }
}

/// Behaviour that reacts to nothing and never has an action ready: the
/// smallest unit the connection manager can drive.
pub struct DummyBehaviour {}

impl DummyBehaviour {
    pub fn new() -> (r: DummyBehaviour) {
        DummyBehaviour {}
    }

    /// Observes the new connection and does nothing.
    pub fn inject_connected(&mut self, peer_id: &PeerIdentity, endpoint: &ConnectionEndpoint)
        ensures
            *final(self) == *old(self),
    {
    }

    /// Observes the disconnection and does nothing.
    pub fn inject_disconnected(&mut self, peer_id: &PeerIdentity, endpoint: &ConnectionEndpoint)
        ensures
            *final(self) == *old(self),
    {
    }

    /// Never has an action ready.
    pub fn poll(&mut self) -> (r: PollOutcome)
        ensures
            r is Pending,
            *final(self) == *old(self),
    {
        PollOutcome::Pending
    }
}

} // verus!
