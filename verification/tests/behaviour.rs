//! Behaviour state-machine tests: welcome, reconnect, discovery bootstrap,
//! the address table and the dummy behaviour.

use golem_libp2p::compose::DummyBehaviour;
use golem_libp2p::kad::{Kademlia, PeerAddressTable};
use golem_libp2p::reconnect::ReconnectBehaviour;
use golem_libp2p::simple::SimpleProtocolEvent;
use golem_libp2p::types::{BehaviourAction, ConnectionEndpoint, NetworkAddress, PeerIdentity, PollOutcome};
use golem_libp2p::welcome::WelcomeBehaviour;

fn peer(tag: u8) -> PeerIdentity {
    PeerIdentity::from_bytes(vec![tag, 1, 2, 3])
}

fn address(text: &str) -> NetworkAddress {
    NetworkAddress::from_text(String::from(text))
}

#[test]
fn test_welcome_greets_each_connection() {
    let mut welcome = WelcomeBehaviour::new(String::from("Hello!"));
    welcome.inject_connected(peer(1), &ConnectionEndpoint::Dialer { address: address("/ip4/127.0.0.1/tcp/30001") });
    welcome.inject_connected(peer(2), &ConnectionEndpoint::Listener { address: address("/ip4/127.0.0.1/tcp/30002") });
    welcome.inject_disconnected(&peer(1), &ConnectionEndpoint::Dialer { address: address("/ip4/127.0.0.1/tcp/30001") });
    welcome.inject_node_event(&peer(2), SimpleProtocolEvent::Sent);

    // Exactly one greeting per connection, in connection order.
    for expected in [1u8, 2u8] {
        match welcome.poll() {
            PollOutcome::Ready(BehaviourAction::SendMessage { peer: to, message }) => {
                assert!(to.matches(&peer(expected)));
                assert_eq!(message.text(), "Hello!");
            }
            _ => panic!("expected a queued greeting"),
        }
    }
    assert!(matches!(welcome.poll(), PollOutcome::Pending));
}

#[test]
fn test_welcome_surfaces_received_greeting() {
    let mut welcome = WelcomeBehaviour::new(String::from("Hello!"));
    welcome.inject_node_event(&peer(7), SimpleProtocolEvent::Received(String::from("hi there")));
    match welcome.poll() {
        PollOutcome::Ready(BehaviourAction::EmitEvent { payload }) => {
            assert_eq!(payload, "hi there");
        }
        _ => panic!("expected an emitted event"),
    }
    assert!(matches!(welcome.poll(), PollOutcome::Pending));
}

#[test]
fn test_poll_empty_twice_is_pending_twice() {
    let mut welcome = WelcomeBehaviour::new(String::from("Hello!"));
    assert!(matches!(welcome.poll(), PollOutcome::Pending));
    assert!(matches!(welcome.poll(), PollOutcome::Pending));

    let mut reconnect = ReconnectBehaviour::new();
    assert!(matches!(reconnect.poll(), PollOutcome::Pending));
    assert!(matches!(reconnect.poll(), PollOutcome::Pending));

    let mut kad = Kademlia::new(peer(1));
    assert!(kad.poll().is_none());
    assert!(kad.poll().is_none());

    let mut dummy = DummyBehaviour::new();
    assert!(matches!(dummy.poll(), PollOutcome::Pending));
    assert!(matches!(dummy.poll(), PollOutcome::Pending));
}

#[test]
fn test_reconnect_redials_dialed_peer_once() {
    let mut reconnect = ReconnectBehaviour::new();
    let addr = address("/ip4/127.0.0.1/tcp/30001");

    reconnect.inject_connected(&peer(1), &ConnectionEndpoint::Dialer { address: addr.clone() });
    // No dial before the disconnect.
    assert!(matches!(reconnect.poll(), PollOutcome::Pending));

    reconnect.inject_disconnected(&peer(1), ConnectionEndpoint::Dialer { address: addr.clone() });
    match reconnect.poll() {
        PollOutcome::Ready(BehaviourAction::DialAddress { address: dial }) => {
            assert_eq!(dial.text(), addr.text());
        }
        _ => panic!("expected a dial request"),
    }
    // Exactly once.
    assert!(matches!(reconnect.poll(), PollOutcome::Pending));
}

#[test]
fn test_reconnect_ignores_inbound_disconnect() {
    let mut reconnect = ReconnectBehaviour::new();
    reconnect.inject_disconnected(
        &peer(2),
        ConnectionEndpoint::Listener { address: address("/ip4/127.0.0.1/tcp/30002") },
    );
    assert!(matches!(reconnect.poll(), PollOutcome::Pending));
}

#[test]
fn test_kad_inbound_connection_queries_peer() {
    let local = peer(1);
    let mut kad = Kademlia::new(local);
    kad.inject_connected(
        peer(9),
        &ConnectionEndpoint::Listener { address: address("/ip4/127.0.0.1/tcp/30009") },
    );
    let target = kad.poll().expect("expected a find-node query");
    assert!(target.matches(&peer(9)));
    assert!(kad.poll().is_none());
}

#[test]
fn test_kad_outbound_connection_queries_local_identity() {
    let local = peer(1);
    let mut kad = Kademlia::new(local);
    kad.inject_connected(
        peer(9),
        &ConnectionEndpoint::Dialer { address: address("/ip4/127.0.0.1/tcp/30009") },
    );
    let target = kad.poll().expect("expected a find-node query");
    assert!(target.matches(&peer(1)));
    assert!(kad.poll().is_none());
}

#[test]
fn test_kad_disconnect_changes_nothing() {
    let mut kad = Kademlia::new(peer(1));
    kad.inject_disconnected(
        &peer(9),
        &ConnectionEndpoint::Dialer { address: address("/ip4/127.0.0.1/tcp/30009") },
    );
    assert!(kad.poll().is_none());
}

#[test]
fn test_kad_records_first_discovery() {
    let mut kad = Kademlia::new(peer(1));
    assert!(!kad.record_discovered(peer(5), vec![]));
    assert!(kad.record_discovered(peer(5), vec![address("/ip4/10.0.0.5/tcp/4001"), address("/ip4/10.0.0.6/tcp/4001")]));
    // A later discovery never replaces the first address.
    assert!(!kad.record_discovered(peer(5), vec![address("/ip4/10.9.9.9/tcp/4001")]));

    let known = kad.addresses_of_peer(&peer(5));
    assert_eq!(known.len(), 1);
    assert_eq!(known[0].text(), "/ip4/10.0.0.5/tcp/4001");
    assert_eq!(kad.addresses_of_peer(&peer(6)).len(), 0);
}

#[test]
fn test_address_table_first_insert_wins() {
    let mut table = PeerAddressTable::new();
    assert!(!table.contains(&peer(3)));
    assert!(table.lookup(&peer(3)).is_none());

    assert!(table.insert_if_absent(peer(3), address("/ip4/10.0.0.3/tcp/4001")));
    assert!(!table.insert_if_absent(peer(3), address("/ip4/10.8.8.8/tcp/4001")));
    assert!(table.insert_if_absent(peer(4), address("/ip4/10.0.0.4/tcp/4001")));

    assert!(table.contains(&peer(3)));
    assert_eq!(table.lookup(&peer(3)).unwrap().text(), "/ip4/10.0.0.3/tcp/4001");
    assert_eq!(table.lookup(&peer(4)).unwrap().text(), "/ip4/10.0.0.4/tcp/4001");
}

#[test]
fn test_peer_identity_equality() {
    assert!(peer(1).matches(&peer(1)));
    assert!(!peer(1).matches(&peer(2)));
    let short = PeerIdentity::from_bytes(vec![1]);
    assert!(!short.matches(&peer(1)));
}

#[test]
fn test_dummy_behaviour_does_nothing() {
    let mut dummy = DummyBehaviour::new();
    dummy.inject_connected(&peer(1), &ConnectionEndpoint::Dialer { address: address("/ip4/127.0.0.1/tcp/30001") });
    dummy.inject_disconnected(&peer(1), &ConnectionEndpoint::Dialer { address: address("/ip4/127.0.0.1/tcp/30001") });
    assert!(matches!(dummy.poll(), PollOutcome::Pending));
}
