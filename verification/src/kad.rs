//! Discovery bootstrap behaviour and the peer-address table.
//!
//! The distributed hash table engine itself — bucket maintenance and
//! iterative lookup — is an external collaborator. This behaviour holds the
//! one essential decision made at connection time: an inbound connection
//! triggers a find-node query for the newly connected peer ("who you are"),
//! an outbound connection triggers one for the local identity ("who I am"),
//! so that routing information propagates either way. Queries are queued and
//! handed to the engine through poll; the engine's discovery results feed
//! the address table, where the first address learned for a peer is kept and
//! never evicted.

use vstd::prelude::*;

use std::collections::VecDeque;

use crate::types::ConnectionEndpoint;
use crate::types::NetworkAddress;
use crate::types::PeerIdentity;

verus! {

/// The mapping a sequence of table entries stands for: every entry
/// inserted, later entries winning — with distinct keys, the order is
/// immaterial.
pub open spec fn entries_model(entries: Seq<(PeerIdentity, NetworkAddress)>) -> Map<
    Seq<u8>,
    Seq<char>,
>
    decreases entries.len(),
{
    if entries.len() == 0 {
        Map::empty()
    } else {
        entries_model(entries.drop_last()).insert(entries.last().0@, entries.last().1@)
    }
}

/// A key is in the model exactly when some entry carries it.
pub proof fn lemma_entries_model_contains(entries: Seq<(PeerIdentity, NetworkAddress)>, k: Seq<u8>)
    ensures
        entries_model(entries).contains_key(k) <==> exists|i: int|
            0 <= i < entries.len() && entries[i].0@ == k,
    decreases entries.len(),
{
    if entries.len() > 0 {
        lemma_entries_model_contains(entries.drop_last(), k);
        if entries.last().0@ == k {
            assert(entries[entries.len() - 1].0@ == k);
        } else if entries_model(entries).contains_key(k) {
            let i = choose|i: int| 0 <= i < entries.drop_last().len() && entries.drop_last()[i].0@
                == k;
            assert(entries[i].0@ == k);
        } else if exists|i: int| 0 <= i < entries.len() && entries[i].0@ == k {
            let i = choose|i: int| 0 <= i < entries.len() && entries[i].0@ == k;
            assert(entries.drop_last()[i].0@ == k);
        }
    }
}

/// With distinct keys, the entry carrying a key decides its mapping.
pub proof fn lemma_entries_model_lookup(
    entries: Seq<(PeerIdentity, NetworkAddress)>,
    i: int,
)
    requires
        0 <= i < entries.len(),
        forall|p: int, q: int|
            0 <= p < q < entries.len() ==> entries[p].0@ != entries[q].0@,
    ensures
        entries_model(entries).contains_key(entries[i].0@),
        entries_model(entries)[entries[i].0@] == entries[i].1@,
    decreases entries.len(),
{
    if i == entries.len() - 1 {
    } else {
        lemma_entries_model_lookup(entries.drop_last(), i);
        assert(entries.drop_last()[i] == entries[i]);
        assert(entries.last().0@ != entries[i].0@);
    }
}

/// Mapping from peer identity to the best known network address: entries
/// are inserted on first discovery or connection and never evicted within
/// this core.
pub struct PeerAddressTable {
    entries: Vec<(PeerIdentity, NetworkAddress)>,
}

impl View for PeerAddressTable {
    type V = Map<Seq<u8>, Seq<char>>;

    closed spec fn view(&self) -> Map<Seq<u8>, Seq<char>> {
        entries_model(self.entries@)
    }
}

impl PeerAddressTable {
    #[verifier::type_invariant]
    spec fn distinct_keys(self) -> bool {
        forall|p: int, q: int|
            0 <= p < q < self.entries@.len() ==> self.entries@[p].0@ != self.entries@[q].0@
    }

    /// An empty table.
    pub fn new() -> (r: Self)
        ensures
            r@ == Map::<Seq<u8>, Seq<char>>::empty(),
    {
        PeerAddressTable { entries: Vec::new() }
    }

    /// Whether an address is known for `peer`.
    pub fn contains(&self, peer: &PeerIdentity) -> (r: bool)
        ensures
            r == self@.contains_key(peer@),
    {
        let n: usize = self.entries.len();
        let mut i: usize = 0;
        while i < n
            invariant
                i <= n == self.entries@.len(),
                forall|j: int| 0 <= j < i ==> self.entries@[j].0@ != peer@,
            decreases n - i,
        {
            if self.entries[i].0.matches(peer) {
                proof {
                    lemma_entries_model_contains(self.entries@, peer@);
                }
                return true;
            }
            i += 1;
        }
        proof {
            lemma_entries_model_contains(self.entries@, peer@);
        }
        false
    }

    /// The best known address for `peer`, if any.
    pub fn lookup(&self, peer: &PeerIdentity) -> (r: Option<&NetworkAddress>)
        ensures
            r is Some <==> self@.contains_key(peer@),
            r matches Some(address) ==> address@ == self@[peer@],
    {
        proof {
            use_type_invariant(&*self);
        }
        let n: usize = self.entries.len();
        let mut i: usize = 0;
        while i < n
            invariant
                i <= n == self.entries@.len(),
                forall|j: int| 0 <= j < i ==> self.entries@[j].0@ != peer@,
                self.distinct_keys(),
            decreases n - i,
        {
            if self.entries[i].0.matches(peer) {
                proof {
                    lemma_entries_model_lookup(self.entries@, i as int);
                }
                return Some(&self.entries[i].1);
            }
            i += 1;
        }
        proof {
            lemma_entries_model_contains(self.entries@, peer@);
        }
        None
    }

    /// Records the first address learned for `peer`; a peer already known
    /// keeps its address — entries are never replaced. Returns whether the
    /// entry was inserted.
    pub fn insert_if_absent(&mut self, peer: PeerIdentity, address: NetworkAddress) -> (r: bool)
        ensures
            r == !old(self)@.contains_key(peer@),
            r ==> final(self)@ == old(self)@.insert(peer@, address@),
            !r ==> final(self)@ == old(self)@,
    {
        proof {
            use_type_invariant(&*self);
        }
        if self.contains(&peer) {
            return false;
        }
        proof {
            lemma_entries_model_contains(self.entries@, peer@);
        }
        let mut entries: Vec<(PeerIdentity, NetworkAddress)> = Vec::new();
        core::mem::swap(&mut entries, &mut self.entries);
        let ghost before = entries@;
        entries.push((peer, address));
        proof {
            assert(entries@.drop_last() =~= before);
        }
        self.entries = entries;
        true
    }
}

/// Model of the discovery bootstrap behaviour: the local identity, the
/// find-node targets waiting for the engine (oldest first), and the address
/// table.
pub struct KademliaView {
    pub local: Seq<u8>,
    pub queries: Seq<Seq<u8>>,
    pub addresses: Map<Seq<u8>, Seq<char>>,
}

/// The targets of a queue of pending queries.
pub open spec fn queries_view(q: Seq<PeerIdentity>) -> Seq<Seq<u8>> {
    q.map_values(|p: PeerIdentity| p@)
}

/// Discovery bootstrap behaviour fronting the external distributed hash
/// table engine: it decides which find-node query each new connection
/// triggers and keeps the addresses the engine discovers.
pub struct Kademlia {
    local_peer_id: PeerIdentity,
    pending_queries: VecDeque<PeerIdentity>,
    addresses: PeerAddressTable,
}

impl View for Kademlia {
    type V = KademliaView;

    closed spec fn view(&self) -> KademliaView {
        KademliaView {
            local: self.local_peer_id@,
            queries: queries_view(self.pending_queries@),
            addresses: self.addresses@,
        }
    }
}

impl Kademlia {
    /// A behaviour for the node identified by `local_peer_id`, with no
    /// query pending and no address known yet.
    pub fn new(local_peer_id: PeerIdentity) -> (r: Self)
        ensures
            r@.local == local_peer_id@,
            r@.queries == Seq::<Seq<u8>>::empty(),
            r@.addresses == Map::<Seq<u8>, Seq<char>>::empty(),
    {
        let r = Kademlia {
            local_peer_id,
            pending_queries: VecDeque::new(),
            addresses: PeerAddressTable::new(),
        };
        proof {
            assert(r@.queries =~= Seq::<Seq<u8>>::empty());
        }
        r
    }

    /// Queues a find-node query for `target`, to be handed to the engine on
    /// the next poll.
    pub fn find_node(&mut self, target: PeerIdentity)
        ensures
            final(self)@ == (KademliaView {
                queries: old(self)@.queries.push(target@),
                ..old(self)@
            }),
    {
        let ghost before = self.pending_queries@;
        self.pending_queries.push_back(target);
        proof {
            assert(queries_view(self.pending_queries@) =~= queries_view(before).push(
                self.pending_queries@.last()@,
            ));
        }
    }

    /// The connection-time bootstrap decision. An inbound connection (the
    /// peer dialed us) queues a find-node query for that peer, to learn and
    /// register its address; an outbound connection (we dialed out) queues
    /// one for the local identity, so other peers register us — never the
    /// reverse.
    pub fn inject_connected(&mut self, peer_id: PeerIdentity, endpoint: &ConnectionEndpoint)
        ensures
            endpoint@ is Listener ==> final(self)@ == (KademliaView {
                queries: old(self)@.queries.push(peer_id@),
                ..old(self)@
            }),
            endpoint@ is Dialer ==> final(self)@ == (KademliaView {
                queries: old(self)@.queries.push(old(self)@.local),
                ..old(self)@
            }),
    {
        match endpoint {
            ConnectionEndpoint::Listener { .. } => self.find_node(peer_id),
            ConnectionEndpoint::Dialer { .. } => {
                let local = self.local_peer_id.clone();
                self.find_node(local);
            },
        }
    }

    /// A disconnect is the engine's concern alone: nothing changes here.
    pub fn inject_disconnected(&mut self, peer_id: &PeerIdentity, endpoint: &ConnectionEndpoint)
        ensures
            final(self)@ == old(self)@,
    {
    }

    /// Records a discovery result reported by the engine: the first address
    /// in `addresses` is kept for a peer not seen before; a peer already
    /// known, or a result without addresses, changes nothing. Returns
    /// whether an entry was added.
    pub fn record_discovered(&mut self, peer_id: PeerIdentity, addresses: Vec<NetworkAddress>) -> (r:
        bool)
        ensures
            r == (addresses@.len() > 0 && !old(self)@.addresses.contains_key(peer_id@)),
            r ==> final(self)@ == (KademliaView {
                addresses: old(self)@.addresses.insert(peer_id@, addresses@[0]@),
                ..old(self)@
            }),
            !r ==> final(self)@ == old(self)@,
    {
        if addresses.len() == 0 {
            return false;
        }
        let mut addresses = addresses;
        let address = addresses.remove(0);
        self.addresses.insert_if_absent(peer_id, address)
    }

    /// The address this behaviour can offer the connection manager for
    /// `peer`: the one the table knows, if any.
    pub fn addresses_of_peer(&self, peer: &PeerIdentity) -> (r: Vec<NetworkAddress>)
        ensures
            self@.addresses.contains_key(peer@) ==> r@.len() == 1 && r@[0]@ == self@.addresses[
                peer@
            ],
            !self@.addresses.contains_key(peer@) ==> r@.len() == 0,
    {
        let mut r: Vec<NetworkAddress> = Vec::new();
        match self.addresses.lookup(peer) {
            Some(address) => {
                r.push(address.clone());
            },
            None => {},
        }
        r
    }

    /// Hands the oldest pending find-node target to the engine, or reports
    /// that none is ready. An empty queue is left exactly as it was:
    /// polling it any number of times stays `None` with no side effects.
    pub fn poll(&mut self) -> (r: Option<PeerIdentity>)
        ensures
            old(self)@.queries.len() == 0 ==> r is None && final(self)@ == old(self)@,
            old(self)@.queries.len() > 0 ==> {
                &&& r matches Some(target) && target@ == old(self)@.queries[0]
                &&& final(self)@ == (KademliaView {
                    queries: old(self)@.queries.drop_first(),
                    ..old(self)@
                })
            },
    {
        let ghost before = self.pending_queries@;
        match self.pending_queries.pop_front() {
            Some(target) => {
                proof {
                    assert(queries_view(
                        before.subrange(1, before.len() as int),
                    ) =~= queries_view(before).drop_first());
                }
                Some(target)
            },
            None => None,
        }
    }
}

} // verus!
