//! Value types crossing the behaviour boundary, and their mathematical models.
//!
//! Executable types hold plain values (byte and character strings); each one
//! has a `View` into a spec-level model, so that every behaviour contract can
//! be stated over sequences and pattern matches rather than over heap values.

use vstd::prelude::*;

use crate::simple::SimpleProtocolMessage;

verus! {

/// Opaque, globally unique identifier of a peer, derived from a public key.
/// Equality is by value; the identity is never mutated after creation.
#[derive(Debug)]
pub struct PeerIdentity {
    bytes: Vec<u8>,
}

impl View for PeerIdentity {
    type V = Seq<u8>;

    closed spec fn view(&self) -> Seq<u8> {
        self.bytes@
    }
}

impl Clone for PeerIdentity {
    fn clone(&self) -> (r: Self)
        ensures
            r@ == self@,
    {
        let bytes = self.bytes.clone();
        proof {
            assert(bytes@ =~= self.bytes@);
        }
        PeerIdentity { bytes }
    }
}

impl PeerIdentity {
    /// Wraps the raw multihash bytes handed over by the identity collaborator.
    pub fn from_bytes(bytes: Vec<u8>) -> (r: Self)
        ensures
            r@ == bytes@,
    {
        PeerIdentity { bytes }
    }

    /// Value equality on the underlying bytes.
    pub fn matches(&self, other: &PeerIdentity) -> (r: bool)
        ensures
            r == (self@ == other@),
    {
        if self.bytes.len() != other.bytes.len() {
            assert(self@ != other@);
            return false;
        }
        let n: usize = self.bytes.len();
        let mut i: usize = 0;
        while i < n
            invariant
                n == self@.len() == other@.len(),
                i <= n,
                forall|j: int| 0 <= j < i ==> self@[j] == other@[j],
            decreases n - i,
        {
            if self.bytes[i] != other.bytes[i] {
                assert(self@ != other@);
                return false;
            }
            i += 1;
        }
        assert(self@ =~= other@);
        true
    }
}

/// Structured, human-printable description of how to reach a peer
/// (protocol stack plus endpoint). Immutable value.
#[derive(Debug)]
pub struct NetworkAddress {
    repr: String,
}

impl View for NetworkAddress {
    type V = Seq<char>;

    closed spec fn view(&self) -> Seq<char> {
        self.repr@
    }
}

impl Clone for NetworkAddress {
    fn clone(&self) -> (r: Self)
        ensures
            r@ == self@,
    {
        NetworkAddress { repr: self.repr.clone() }
    }
}

impl NetworkAddress {
    /// Wraps the textual form of the address.
    pub fn from_text(repr: String) -> (r: Self)
        ensures
            r@ == repr@,
    {
        NetworkAddress { repr }
    }

    /// The textual form, for the transport collaborator to dial or print.
    pub fn text(&self) -> (r: &String)
        ensures
            r@ == self@,
    {
        &self.repr
    }
}

/// Which side initiated the connection that is now established.
/// Created when a connection is established and never mutated.
#[derive(Debug)]
pub enum ConnectionEndpoint {
    /// The local node dialed out to `address`.
    Dialer { address: NetworkAddress },
    /// The peer dialed us; `address` is where the peer can be reached back.
    Listener { address: NetworkAddress },
}

impl Clone for ConnectionEndpoint {
    fn clone(&self) -> (r: Self)
        ensures
            r@ == self@,
    {
        match self {
            ConnectionEndpoint::Dialer { address } => ConnectionEndpoint::Dialer {
                address: address.clone(),
            },
            ConnectionEndpoint::Listener { address } => ConnectionEndpoint::Listener {
                address: address.clone(),
            },
        }
    }
}

/// Spec-level model of a `ConnectionEndpoint`.
pub enum EndpointView {
    Dialer { address: Seq<char> },
    Listener { address: Seq<char> },
}

impl View for ConnectionEndpoint {
    type V = EndpointView;

    open spec fn view(&self) -> EndpointView {
        match self {
            ConnectionEndpoint::Dialer { address } => EndpointView::Dialer { address: address@ },
            ConnectionEndpoint::Listener { address } => EndpointView::Listener {
                address: address@,
            },
        }
    }
}

/// One thing a behaviour asks the outer system to do. Owned by the
/// behaviour's pending-action queue until delivered exactly once via poll.
#[derive(Debug)]
pub enum BehaviourAction {
    /// Ask the transport to dial `address`.
    DialAddress { address: NetworkAddress },
    /// Ask the connection manager to send `message` to `peer` over a
    /// one-shot greeting exchange.
    SendMessage { peer: PeerIdentity, message: SimpleProtocolMessage },
    /// Surface `payload` to the host application.
    EmitEvent { payload: String },
}

/// Spec-level model of a `BehaviourAction`.
pub enum ActionView {
    Dial { address: Seq<char> },
    Send { peer: Seq<u8>, message: Seq<char> },
    Emit { payload: Seq<char> },
}

impl View for BehaviourAction {
    type V = ActionView;

    open spec fn view(&self) -> ActionView {
        match self {
            BehaviourAction::DialAddress { address } => ActionView::Dial { address: address@ },
            BehaviourAction::SendMessage { peer, message } => ActionView::Send {
                peer: peer@,
                message: message@,
            },
            BehaviourAction::EmitEvent { payload } => ActionView::Emit { payload: payload@ },
        }
    }
}

/// Result of one non-blocking poll call: either one action, delivered
/// exactly once, or the cooperative "no action ready".
#[derive(Debug)]
pub enum PollOutcome {
    Ready(BehaviourAction),
    Pending,
}

/// Spec-level model of one connection lifecycle event, as the driver hands
/// it to a behaviour. Protocol-level notifications from a one-shot exchange
/// arrive as `NodeEvent`.
pub enum NetworkEvent {
    Connected { peer: Seq<u8>, endpoint: EndpointView },
    Disconnected { peer: Seq<u8>, endpoint: EndpointView },
    NodeEvent { peer: Seq<u8>, event: ProtocolEventView },
}

/// Spec-level model of the outcome of a one-shot exchange.
pub enum ProtocolEventView {
    Received { message: Seq<char> },
    Sent,
}

/// One step taken by the external driver on a behaviour: deliver one
/// lifecycle event, or poll once.
pub enum DriverStep {
    Deliver { event: NetworkEvent },
    Poll,
}

/// The lifecycle events a step sequence delivers, in order.
pub open spec fn delivered_events(steps: Seq<DriverStep>) -> Seq<NetworkEvent>
    decreases steps.len(),
{
    if steps.len() == 0 {
        Seq::empty()
    } else {
        match steps[0] {
            DriverStep::Deliver { event } => seq![event] + delivered_events(steps.drop_first()),
            DriverStep::Poll => delivered_events(steps.drop_first()),
        }
    }
}

/// The queue of a behaviour, seen as the sequence of its action models.
pub open spec fn actions_view(q: Seq<BehaviourAction>) -> Seq<ActionView> {
    q.map_values(|a: BehaviourAction| a@)
}

/// Appending an action to a queue appends its model to the queue's model.
pub proof fn lemma_actions_view_push(q: Seq<BehaviourAction>, a: BehaviourAction)
    ensures
        actions_view(q.push(a)) == actions_view(q).push(a@),
{
    assert(actions_view(q.push(a)) =~= actions_view(q).push(a@));
}

/// Dropping the oldest action from a queue drops its model as well.
pub proof fn lemma_actions_view_drop_first(q: Seq<BehaviourAction>)
    requires
        q.len() > 0,
    ensures
        actions_view(q.subrange(1, q.len() as int)) == actions_view(q).drop_first(),
{
    assert(actions_view(q.subrange(1, q.len() as int)) =~= actions_view(q).drop_first());
}

} // verus!
