//! End-to-end scenario: two nodes, one dial, greetings both ways, one drop.

use golem_libp2p::compose::ComposedBehaviour;
use golem_libp2p::handler::OneShotExchange;
use golem_libp2p::kad::Kademlia;
use golem_libp2p::simple::{SimpleProtocolEvent, SimpleProtocolMessage};
use golem_libp2p::types::{BehaviourAction, ConnectionEndpoint, NetworkAddress, PeerIdentity, PollOutcome};

fn peer(tag: u8) -> PeerIdentity {
    PeerIdentity::from_bytes(vec![tag; 4])
}

fn address(text: &str) -> NetworkAddress {
    NetworkAddress::from_text(String::from(text))
}

/// Carries one greeting from the polled send action through the one-shot
/// exchanges of both sides, returning what the receiver's handler surfaces.
fn exchange_greeting(message: &SimpleProtocolMessage) -> SimpleProtocolEvent {
    let mut sender = OneShotExchange::new();
    let frame = sender.begin_outbound(message).unwrap();
    sender.complete_outbound(true).unwrap();

    let mut receiver = OneShotExchange::new();
    receiver.begin_inbound();
    receiver.complete_inbound(Some(&frame)).unwrap()
}

#[test]
fn test_two_nodes_dial_greet_and_redial() {
    let peer_a = peer(0xa);
    let peer_b = peer(0xb);
    let addr_a = address("/ip4/127.0.0.1/tcp/30001");
    let addr_b = address("/ip4/127.0.0.1/tcp/30002");

    let mut kad_a = Kademlia::new(peer_a.clone());
    let mut kad_b = Kademlia::new(peer_b.clone());
    let mut node_a = ComposedBehaviour::new(String::from("Hello from A"));
    let mut node_b = ComposedBehaviour::new(String::from("Hello from B"));

    // A dials B: A sees a dialer endpoint, B a listener endpoint.
    let a_to_b = ConnectionEndpoint::Dialer { address: addr_b.clone() };
    let b_to_a = ConnectionEndpoint::Listener { address: addr_a.clone() };
    kad_a.inject_connected(peer_b.clone(), &a_to_b);
    kad_b.inject_connected(peer_a.clone(), &b_to_a);
    node_a.inject_connected(peer_b.clone(), &a_to_b);
    node_b.inject_connected(peer_a.clone(), &b_to_a);

    // B's bootstrap asks for A; A's announces its own identity.
    let query_b = kad_b.poll().expect("expected a find-node query at B");
    assert!(query_b.matches(&peer_a));
    assert!(kad_b.poll().is_none());
    let query_a = kad_a.poll().expect("expected a find-node query at A");
    assert!(query_a.matches(&peer_a));
    assert!(kad_a.poll().is_none());

    // Each side emits exactly one greeting; carry both across the wire.
    let greeting_a = match node_a.poll() {
        PollOutcome::Ready(BehaviourAction::SendMessage { peer: to, message }) => {
            assert!(to.matches(&peer_b));
            message
        }
        _ => panic!("expected A's greeting"),
    };
    assert!(matches!(node_a.poll(), PollOutcome::Pending));
    let greeting_b = match node_b.poll() {
        PollOutcome::Ready(BehaviourAction::SendMessage { peer: to, message }) => {
            assert!(to.matches(&peer_a));
            message
        }
        _ => panic!("expected B's greeting"),
    };
    assert!(matches!(node_b.poll(), PollOutcome::Pending));

    node_b.inject_node_event(&peer_a, exchange_greeting(&greeting_a));
    node_a.inject_node_event(&peer_b, exchange_greeting(&greeting_b));

    match node_b.poll() {
        PollOutcome::Ready(BehaviourAction::EmitEvent { payload }) => {
            assert_eq!(payload, "Hello from A");
        }
        _ => panic!("expected B to surface A's greeting"),
    }
    match node_a.poll() {
        PollOutcome::Ready(BehaviourAction::EmitEvent { payload }) => {
            assert_eq!(payload, "Hello from B");
        }
        _ => panic!("expected A to surface B's greeting"),
    }

    // B drops the connection: A re-dials B's address exactly once.
    node_a.inject_disconnected(&peer_b, ConnectionEndpoint::Dialer { address: addr_b.clone() });
    node_b.inject_disconnected(&peer_a, ConnectionEndpoint::Listener { address: addr_a.clone() });
    match node_a.poll() {
        PollOutcome::Ready(BehaviourAction::DialAddress { address: dial }) => {
            assert_eq!(dial.text(), addr_b.text());
        }
        _ => panic!("expected A to re-dial B"),
    }
    assert!(matches!(node_a.poll(), PollOutcome::Pending));
    // B never dialed out, so it does not re-dial.
    assert!(matches!(node_b.poll(), PollOutcome::Pending));
}
