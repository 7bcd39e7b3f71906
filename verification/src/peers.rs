//! The table of the peers that a listener knows.

use crate::net::{keys_tell_addresses_apart, AddrKey, SocketAddr};
use hashbrown::HashMap;
use vstd::prelude::*;

verus! {

/// A hash map of the crate `hashbrown` from address keys to slot numbers.
#[verifier::external_body]
pub struct PeerIndex {
    map: HashMap<AddrKey, usize>,
}

/// What a `PeerIndex` holds.
pub uninterp spec fn peer_slots(index: PeerIndex) -> Map<AddrKey, usize>;

/// `HashMap::new`: an empty map.
#[verifier::external_body]
fn index_new() -> (index: PeerIndex)
    ensures
        peer_slots(index).dom() == Set::<AddrKey>::empty(),
{
    PeerIndex { map: HashMap::new() }
}

/// `HashMap::get`: the value under the key, if there is one.
#[verifier::external_body]
fn index_get(index: &PeerIndex, key: &AddrKey) -> (slot: Option<usize>)
    ensures
        slot == (if peer_slots(*index).dom().contains(*key) {
            Some(peer_slots(*index)[*key])
        } else {
            None
        }),
{
    index.map.get(key).copied()
}

/// `HashMap::insert`: puts the value under the key, in the place of an earlier
/// one, which is returned.
#[verifier::external_body]
fn index_insert(index: &mut PeerIndex, key: AddrKey, slot: usize) -> (before: Option<usize>)
    ensures
        peer_slots(*final(index)) == peer_slots(*old(index)).insert(key, slot),
        before == (if peer_slots(*old(index)).dom().contains(key) {
            Some(peer_slots(*old(index))[key])
        } else {
            None
        }),
{
    index.map.insert(key, slot)
}

/// `HashMap::remove`: takes the key and its value out and returns the value.
#[verifier::external_body]
fn index_remove(index: &mut PeerIndex, key: &AddrKey) -> (slot: Option<usize>)
    ensures
        peer_slots(*final(index)) == peer_slots(*old(index)).remove(*key),
        slot == (if peer_slots(*old(index)).dom().contains(*key) {
            Some(peer_slots(*old(index))[*key])
        } else {
            None
        }),
{
    index.map.remove(key)
}

/// A map from peer addresses to what a listener keeps for each. Its view is that
/// map.
pub struct PeerTable<T> {
    index: PeerIndex,
    slots: Vec<Option<T>>,
    free: Vec<usize>,
}

impl<T> View for PeerTable<T> {
    type V = Map<SocketAddr, T>;

    closed spec fn view(&self) -> Map<SocketAddr, T> {
        Map::new(
            |peer: SocketAddr| peer_slots(self.index).dom().contains(peer.key_spec()),
            |peer: SocketAddr| self.slots@[peer_slots(self.index)[peer.key_spec()] as int]->0,
        )
    }
}

impl<T> PeerTable<T> {
    /// Each key has a filled slot of its own, and the free slots are empty.
    pub closed spec fn wf(self) -> bool {
        &&& forall|key: AddrKey| #[trigger]
            peer_slots(self.index).dom().contains(key) ==> {
                &&& peer_slots(self.index)[key] < self.slots@.len()
                &&& self.slots@[peer_slots(self.index)[key] as int] is Some
            }
        &&& forall|a: AddrKey, b: AddrKey|
            #![trigger peer_slots(self.index).dom().contains(a), peer_slots(self.index).dom().contains(b)]
            peer_slots(self.index).dom().contains(a) && peer_slots(self.index).dom().contains(b)
                && peer_slots(self.index)[a] == peer_slots(self.index)[b] ==> a == b
        &&& forall|i: int|
            0 <= i < self.free@.len() ==> {
                &&& #[trigger] self.free@[i] < self.slots@.len()
                &&& self.slots@[self.free@[i] as int] is None
            }
        &&& self.free@.no_duplicates()
    }

    /// A table without peers.
    pub fn new() -> (table: PeerTable<T>)
        ensures
            table.wf(),
            table@ == Map::<SocketAddr, T>::empty(),
    {
        let table = PeerTable { index: index_new(), slots: Vec::new(), free: Vec::new() };
        assert(table@ =~= Map::<SocketAddr, T>::empty());
        table
    }

    /// What the table keeps for a peer.
    pub fn get(&self, peer: &SocketAddr) -> (kept: Option<&T>)
        requires
            self.wf(),
        ensures
            kept == (if self@.dom().contains(*peer) {
                Some(&self@[*peer])
            } else {
                None
            }),
    {
        match index_get(&self.index, &peer.key()) {
            Some(slot) => self.slots[slot].as_ref(),
            None => None,
        }
    }

    /// Keeps a value for a peer, in the place of an earlier one, which is
    /// returned.
    pub fn insert(&mut self, peer: SocketAddr, value: T) -> (before: Option<T>)
        requires
            old(self).wf(),
        ensures
            final(self).wf(),
            final(self)@ == old(self)@.insert(peer, value),
            before == (if old(self)@.dom().contains(peer) {
                Some(old(self)@[peer])
            } else {
                None
            }),
    {
        let key = peer.key();
        let before = match index_get(&self.index, &key) {
            Some(slot) => {
                let before = self.slots[slot].take();
                self.slots[slot] = Some(value);
                before
            },
            None => {
                let slot: usize = match self.free.pop() {
                    Some(slot) => {
                        self.slots[slot] = Some(value);
                        slot
                    },
                    None => {
                        self.slots.push(Some(value));
                        self.slots.len() - 1
                    },
                };
                index_insert(&mut self.index, key, slot);
                None
            },
        };
        proof {
            assert forall|other: SocketAddr| other.key_spec() == peer.key_spec() implies other
                == peer by {
                keys_tell_addresses_apart(other, peer);
            }
            assert(self@ =~= old(self)@.insert(peer, value));
        }
        before
    }

    /// Forgets a peer and returns what was kept for it.
    pub fn remove(&mut self, peer: &SocketAddr) -> (before: Option<T>)
        requires
            old(self).wf(),
        ensures
            final(self).wf(),
            final(self)@ == old(self)@.remove(*peer),
            before == (if old(self)@.dom().contains(*peer) {
                Some(old(self)@[*peer])
            } else {
                None
            }),
    {
        let before = match index_remove(&mut self.index, &peer.key()) {
            Some(slot) => {
                self.free.push(slot);
                self.slots[slot].take()
            },
            None => None,
        };
        proof {
            assert forall|other: SocketAddr| other.key_spec() == peer.key_spec() implies other
                == peer by {
                keys_tell_addresses_apart(other, *peer);
            }
            assert(self@ =~= old(self)@.remove(*peer));
        }
        before
    }
}

} // verus!
