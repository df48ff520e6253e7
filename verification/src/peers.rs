//! The peer state store: for one peer-set, the peers connected on it and the
//! view each of them announced last.

use crate::primitives::{views, PeerId};
use crate::view::{View, ViewModel};
use vstd::prelude::*;
use vstd::view::View as _;

verus! {

/// What the bridge remembers of one connected peer.
#[derive(Debug, PartialEq, Eq)]
pub struct PeerData {
    /// The view the peer announced last; the empty view until it announces one.
    pub view: View,
}

impl Default for PeerData {
    fn default() -> (data: PeerData)
        ensures
            data.view@ == ViewModel::empty(),
    {
        PeerData { view: View::default() }
    }
}

/// The mathematical content of a [`PeerMap`]: the connected peers in the
/// order in which they connected, each with its stored view.
pub type PeerEntries = Seq<(Seq<u8>, ViewModel)>;

/// No peer has two entries.
pub open spec fn distinct_peers(entries: PeerEntries) -> bool {
    forall|i: int, j: int|
        0 <= i < entries.len() && 0 <= j < entries.len() && i != j ==> entries[i].0
            != entries[j].0
}

/// Whether `peer` has an entry, that is, is connected.
pub open spec fn has_peer(entries: PeerEntries, peer: Seq<u8>) -> bool {
    exists|i: int| 0 <= i < entries.len() && #[trigger] entries[i].0 == peer
}

/// The place of the entry of `peer`, which has one.
pub open spec fn peer_index(entries: PeerEntries, peer: Seq<u8>) -> int {
    choose|i: int| 0 <= i < entries.len() && #[trigger] entries[i].0 == peer
}

/// The view stored for the connected `peer`.
pub open spec fn stored_view(entries: PeerEntries, peer: Seq<u8>) -> ViewModel {
    entries[peer_index(entries, peer)].1
}

/// The connected peers, in the order in which they connected.
pub open spec fn connected_peers(entries: PeerEntries) -> Seq<Seq<u8>> {
    Seq::new(entries.len(), |i: int| entries[i].0)
}

/// The entries after `peer` connected: unchanged if it had an entry, else
/// with a last entry that holds the empty view.
pub open spec fn with_peer(entries: PeerEntries, peer: Seq<u8>) -> PeerEntries {
    if has_peer(entries, peer) {
        entries
    } else {
        entries.push((peer, ViewModel::empty()))
    }
}

/// The entries after `peer` disconnected: without its entry, the others in
/// their order.
pub open spec fn without_peer(entries: PeerEntries, peer: Seq<u8>) -> PeerEntries {
    if has_peer(entries, peer) {
        entries.remove(peer_index(entries, peer))
    } else {
        entries
    }
}

/// The entries after the connected `peer` announced `view`.
pub open spec fn with_view(entries: PeerEntries, peer: Seq<u8>, view: ViewModel) -> PeerEntries {
    if has_peer(entries, peer) {
        entries.update(peer_index(entries, peer), (peer, view))
    } else {
        entries
    }
}

/// In entries without a repeated peer, the entry at `i` is the entry of its peer.
pub proof fn lemma_peer_index(entries: PeerEntries, i: int)
    requires
        distinct_peers(entries),
        0 <= i < entries.len(),
    ensures
        has_peer(entries, entries[i].0),
        peer_index(entries, entries[i].0) == i,
        stored_view(entries, entries[i].0) == entries[i].1,
{
}

/// Connecting, disconnecting and announcing a view keep the entries free of
/// repeated peers, and do to the connected peers and their views what their
/// names say.
pub proof fn lemma_entries_updates(entries: PeerEntries, peer: Seq<u8>, view: ViewModel)
    requires
        distinct_peers(entries),
    ensures
        distinct_peers(with_peer(entries, peer)),
        distinct_peers(without_peer(entries, peer)),
        distinct_peers(with_view(entries, peer, view)),
        has_peer(with_peer(entries, peer), peer),
        !has_peer(entries, peer) ==> stored_view(with_peer(entries, peer), peer)
            == ViewModel::empty(),
        !has_peer(without_peer(entries, peer), peer),
        has_peer(entries, peer) ==> has_peer(with_view(entries, peer, view), peer) && stored_view(
            with_view(entries, peer, view),
            peer,
        ) == view,
        forall|other: Seq<u8>|
            other != peer ==> {
                &&& has_peer(with_peer(entries, peer), other) == has_peer(entries, other)
                &&& has_peer(without_peer(entries, peer), other) == has_peer(entries, other)
                &&& has_peer(with_view(entries, peer, view), other) == has_peer(entries, other)
                &&& has_peer(entries, other) ==> {
                    &&& stored_view(with_peer(entries, peer), other) == stored_view(
                        entries,
                        other,
                    )
                    &&& stored_view(without_peer(entries, peer), other) == stored_view(
                        entries,
                        other,
                    )
                    &&& stored_view(with_view(entries, peer, view), other) == stored_view(
                        entries,
                        other,
                    )
                }
            },
{
    let added = with_peer(entries, peer);
    let removed = without_peer(entries, peer);
    let updated = with_view(entries, peer, view);
    if has_peer(entries, peer) {
        let at = peer_index(entries, peer);
        assert(updated[at].0 == peer);
        assert forall|other: Seq<u8>| other != peer && has_peer(entries, other) implies {
            &&& has_peer(removed, other)
            &&& has_peer(updated, other)
            &&& stored_view(removed, other) == stored_view(entries, other)
            &&& stored_view(updated, other) == stored_view(entries, other)
        } by {
            let k = peer_index(entries, other);
            let moved = if k < at {
                k
            } else {
                k - 1
            };
            assert(removed[moved] == entries[k]);
            lemma_peer_index(removed, moved);
            assert(updated[k] == entries[k]);
            lemma_peer_index(updated, k);
        }
        assert forall|other: Seq<u8>| other != peer && has_peer(removed, other) implies has_peer(
            entries,
            other,
        ) by {
            let k = peer_index(removed, other);
            let origin = if k < at {
                k
            } else {
                k + 1
            };
            assert(entries[origin] == removed[k]);
        }
        assert forall|other: Seq<u8>| other != peer && has_peer(updated, other) implies has_peer(
            entries,
            other,
        ) by {
            let k = peer_index(updated, other);
            assert(entries[k] == updated[k]);
        }
        if has_peer(removed, peer) {
            let k = peer_index(removed, peer);
            let origin = if k < at {
                k
            } else {
                k + 1
            };
            assert(entries[origin] == removed[k]);
        }
        lemma_peer_index(updated, at);
    } else {
        let last = entries.len() as int;
        assert(added[last].0 == peer);
        lemma_peer_index(added, last);
        assert forall|other: Seq<u8>| other != peer && has_peer(entries, other) implies has_peer(
            added,
            other,
        ) && stored_view(added, other) == stored_view(entries, other) by {
            let k = peer_index(entries, other);
            assert(added[k] == entries[k]);
            lemma_peer_index(added, k);
        }
        assert forall|other: Seq<u8>| other != peer && has_peer(added, other) implies has_peer(
            entries,
            other,
        ) by {
            let k = peer_index(added, other);
            assert(entries[k] == added[k]);
        }
    }
}

/// The peers connected on one peer-set, each with the view it announced last.
///
/// A peer has an entry exactly while it is connected, and never two.
#[derive(Debug)]
pub struct PeerMap {
    entries: Vec<(PeerId, PeerData)>,
}

impl vstd::view::View for PeerMap {
    type V = PeerEntries;

    closed spec fn view(&self) -> PeerEntries {
        Seq::new(self.entries@.len(), |i: int| (self.entries@[i].0@, self.entries@[i].1.view@))
    }
}

impl PeerMap {
    /// The invariant of the store: no peer has two entries.
    pub open spec fn wf(&self) -> bool {
        distinct_peers(self@)
    }

    /// The store without any peer.
    pub fn new() -> (peers: PeerMap)
        ensures
            peers@ == PeerEntries::empty(),
            peers.wf(),
    {
        let peers = PeerMap { entries: Vec::new() };
        assert(peers@ =~= PeerEntries::empty());
        peers
    }

    /// The number of connected peers.
    pub fn len(&self) -> (count: usize)
        ensures
            count == self@.len(),
    {
        self.entries.len()
    }

    /// Whether no peer is connected.
    pub fn is_empty(&self) -> (empty: bool)
        ensures
            empty == (self@.len() == 0),
    {
        self.entries.len() == 0
    }

    fn position(&self, peer: &PeerId) -> (found: Option<usize>)
        ensures
            match found {
                Some(i) => i < self@.len() && self@[i as int].0 == peer@,
                None => !has_peer(self@, peer@),
            },
    {
        let mut i: usize = 0;
        while i < self.entries.len()
            invariant
                i <= self.entries.len(),
                self@.len() == self.entries@.len(),
                forall|j: int| 0 <= j < i ==> self@[j].0 != peer@,
            decreases self.entries.len() - i,
        {
            if self.entries[i].0 == *peer {
                return Some(i);
            }
            i += 1;
        }
        None
    }

    /// Whether `peer` is connected.
    pub fn contains(&self, peer: &PeerId) -> (found: bool)
        ensures
            found == has_peer(self@, peer@),
    {
        self.position(peer).is_some()
    }

    /// The view stored for `peer`, if it is connected.
    pub fn view_of(&self, peer: &PeerId) -> (view: Option<View>)
        requires
            self.wf(),
        ensures
            match view {
                Some(view) => has_peer(self@, peer@) && view@ == stored_view(self@, peer@),
                None => !has_peer(self@, peer@),
            },
    {
        match self.position(peer) {
            Some(i) => {
                proof {
                    lemma_peer_index(self@, i as int);
                }
                Some(self.entries[i].1.view.clone())
            },
            None => None,
        }
    }

    /// Connects `peer`: gives it an entry with the empty view, unless it has
    /// one already. Returns whether the entry is new.
    pub fn insert(&mut self, peer: PeerId) -> (inserted: bool)
        requires
            old(self).wf(),
        ensures
            final(self).wf(),
            inserted == !has_peer(old(self)@, peer@),
            final(self)@ == with_peer(old(self)@, peer@),
    {
        proof {
            lemma_entries_updates(self@, peer@, ViewModel::empty());
        }
        match self.position(&peer) {
            Some(_) => false,
            None => {
                self.entries.push((peer, PeerData::default()));
                assert(self@ =~= with_peer(old(self)@, peer@));
                true
            },
        }
    }

    /// Disconnects `peer`: removes its entry. Returns whether it had one.
    pub fn remove(&mut self, peer: &PeerId) -> (removed: bool)
        requires
            old(self).wf(),
        ensures
            final(self).wf(),
            removed == has_peer(old(self)@, peer@),
            final(self)@ == without_peer(old(self)@, peer@),
    {
        proof {
            lemma_entries_updates(self@, peer@, ViewModel::empty());
        }
        match self.position(peer) {
            Some(i) => {
                proof {
                    lemma_peer_index(self@, i as int);
                }
                let _ = self.entries.remove(i);
                assert(self@ =~= without_peer(old(self)@, peer@));
                true
            },
            None => false,
        }
    }

    /// Stores `view` as the view of `peer`, if it is connected. Returns
    /// whether it is.
    pub fn set_view(&mut self, peer: &PeerId, view: View) -> (stored: bool)
        requires
            old(self).wf(),
        ensures
            final(self).wf(),
            stored == has_peer(old(self)@, peer@),
            final(self)@ == with_view(old(self)@, peer@, view@),
    {
        proof {
            lemma_entries_updates(self@, peer@, view@);
        }
        match self.position(peer) {
            Some(i) => {
                proof {
                    lemma_peer_index(self@, i as int);
                }
                self.entries.set(i, (peer.clone(), PeerData { view }));
                assert(self@ =~= with_view(old(self)@, peer@, view@));
                true
            },
            None => false,
        }
    }

    /// The connected peers, in the order in which they connected.
    pub fn peers(&self) -> (peers: Vec<PeerId>)
        ensures
            views(peers@) == connected_peers(self@),
    {
        let mut peers: Vec<PeerId> = Vec::new();
        let mut i: usize = 0;
        while i < self.entries.len()
            invariant
                i <= self.entries.len(),
                self@.len() == self.entries@.len(),
                peers@.len() == i,
                forall|j: int| 0 <= j < i ==> peers@[j]@ == self@[j].0,
            decreases self.entries.len() - i,
        {
            peers.push(self.entries[i].0.clone());
            i += 1;
        }
        assert(views(peers@) =~= connected_peers(self@));
        peers
    }
}

} // verus!
