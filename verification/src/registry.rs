//! The set of peers seen so far.

use crate::descriptor::{Udis, UdisView};
use vstd::prelude::*;
use vstd::seq_lib::seq_to_set_is_finite;

verus! {

/// The values of a list of descriptors, in order.
pub open spec fn peer_views(peers: Seq<Udis>) -> Seq<UdisView> {
    peers.map_values(|p: Udis| p@)
}

/// The distinct descriptors of the peers that announced themselves, keyed by their
/// whole value: a peer that announces a changed service list is another peer.
///
/// The registry only grows. Nothing is ever removed from it.
#[derive(Debug)]
pub struct PeerRegistry {
    peers: Vec<Udis>,
}

impl View for PeerRegistry {
    type V = Set<UdisView>;

    closed spec fn view(&self) -> Set<UdisView> {
        peer_views(self.peers@).to_set()
    }
}

impl PeerRegistry {
    #[verifier::type_invariant]
    spec fn well_formed(&self) -> bool {
        peer_views(self.peers@).no_duplicates()
    }

    /// A registry that knows no peer.
    pub fn new() -> (registry: PeerRegistry)
        ensures
            registry@ == Set::<UdisView>::empty(),
    {
        let registry = PeerRegistry { peers: Vec::new() };
        assert(registry@ =~= Set::<UdisView>::empty());
        registry
    }

    /// A registry never holds more than finitely many peers.
    pub proof fn lemma_finite(&self)
        ensures
            self@.finite(),
    {
        seq_to_set_is_finite(peer_views(self.peers@));
    }

    /// The number of distinct peers seen so far.
    pub fn len(&self) -> (count: usize)
        ensures
            count == self@.len(),
            self@.finite(),
    {
        proof {
            use_type_invariant(self);
            peer_views(self.peers@).unique_seq_to_set();
            seq_to_set_is_finite(peer_views(self.peers@));
        }
        self.peers.len()
    }

    /// Whether `descriptor` has been seen before.
    pub fn contains(&self, descriptor: &Udis) -> (known: bool)
        ensures
            known == self@.contains(descriptor@),
    {
        let ghost views = peer_views(self.peers@);
        let mut i: usize = 0;
        while i < self.peers.len()
            invariant
                i <= self.peers.len(),
                views == peer_views(self.peers@),
                forall|j: int| 0 <= j < i ==> #[trigger] views[j] != descriptor@,
            decreases self.peers.len() - i,
        {
            if self.peers[i] == *descriptor {
                assert(views[i as int] == descriptor@);
                return true;
            }
            i += 1;
        }
        false
    }

    /// Records `descriptor` unless it has been seen before, and says whether it was new.
    pub fn insert(&mut self, descriptor: Udis) -> (inserted: bool)
        ensures
            inserted == !old(self)@.contains(descriptor@),
            final(self)@ == old(self)@.insert(descriptor@),
    {
        proof {
            use_type_invariant(&*self);
        }
        if self.contains(&descriptor) {
            assert(self@.insert(descriptor@) =~= self@);
            false
        } else {
            let ghost views = peer_views(self.peers@);
            // The list is taken out and put back whole, so that the registry is never
            // seen half changed.
            let mut grown = PeerRegistry::new();
            core::mem::swap(self, &mut grown);
            let mut peers = grown.peers;
            peers.push(descriptor);
            proof {
                assert(peer_views(peers@) =~= views.push(descriptor@));
                views.lemma_push_to_set_commute(descriptor@);
            }
            *self = PeerRegistry { peers };
            true
        }
    }
}

} // verus!
