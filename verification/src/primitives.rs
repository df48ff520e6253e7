//! Identities and small value types shared by every part of the bridge.

use vstd::prelude::*;
use vstd::std_specs::cmp::PartialEqSpecImpl;

verus! {

/// Number of a block in the chain.
pub type BlockNumber = u32;

/// A fixed-width block hash.
#[derive(Clone, Copy, Debug, Eq, Hash)]
pub struct BlockHash(pub [u8; 32]);

impl BlockHash {
    /// The hash whose 32 bytes all equal `byte`.
    pub fn repeat_byte(byte: u8) -> (hash: BlockHash)
        ensures
            forall|i: int| 0 <= i < 32 ==> hash.0[i] == byte,
    {
        BlockHash([byte;32])
    }
}

impl PartialEq for BlockHash {
    fn eq(&self, other: &Self) -> (same: bool) {
        let mut i: usize = 0;
        while i < 32
            invariant
                i <= 32,
                forall|j: int| 0 <= j < i ==> self.0[j] == other.0[j],
            decreases 32 - i,
        {
            if self.0[i] != other.0[i] {
                return false;
            }
            i += 1;
        }
        assert(self.0 =~= other.0);
        true
    }
}

impl PartialEqSpecImpl for BlockHash {
    open spec fn obeys_eq_spec() -> bool {
        true
    }

    open spec fn eq_spec(&self, other: &Self) -> bool {
        *self == *other
    }
}

/// The identity of a peer: the bytes of its network identifier.
///
/// Two peer identities are the same peer exactly when their bytes agree; the
/// view of a `PeerId` is that byte sequence.
#[derive(Debug, Eq, Hash)]
pub struct PeerId(pub Vec<u8>);

impl View for PeerId {
    type V = Seq<u8>;

    open spec fn view(&self) -> Seq<u8> {
        self.0@
    }
}

impl PeerId {
    /// The peer identified by `bytes`.
    pub fn from_bytes(bytes: Vec<u8>) -> (peer: PeerId)
        ensures
            peer@ == bytes@,
    {
        PeerId(bytes)
    }
}

impl Clone for PeerId {
    fn clone(&self) -> (copy: Self)
        ensures
            copy@ == self@,
    {
        PeerId(self.0.clone())
    }
}

impl PartialEq for PeerId {
    fn eq(&self, other: &Self) -> (same: bool) {
        if self.0.len() != other.0.len() {
            return false;
        }
        let mut i: usize = 0;
        while i < self.0.len()
            invariant
                i <= self.0.len(),
                self.0.len() == other.0.len(),
                forall|j: int| 0 <= j < i ==> self.0@[j] == other.0@[j],
            decreases self.0.len() - i,
        {
            if self.0[i] != other.0[i] {
                return false;
            }
            i += 1;
        }
        assert(self.0@ =~= other.0@);
        true
    }
}

impl PartialEqSpecImpl for PeerId {
    open spec fn obeys_eq_spec() -> bool {
        true
    }

    open spec fn eq_spec(&self, other: &Self) -> bool {
        self@ == other@
    }
}

/// The views of the items of a sequence, in the same order.
pub open spec fn views<T: View>(items: Seq<T>) -> Seq<T::V> {
    Seq::new(items.len(), |i: int| items[i]@)
}

/// The two independent peer-sets the bridge serves.
#[derive(Clone, Copy, Debug, PartialEq, Eq, Structural, Hash)]
pub enum PeerSet {
    /// Peers that take part in validation.
    Validation,
    /// Peers that take part in collation.
    Collation,
}

/// The role a remote peer was observed to play.
#[derive(Clone, Copy, Debug, PartialEq, Eq, Structural, Hash)]
pub enum ObservedRole {
    /// A light client.
    Light,
    /// A full node.
    Full,
    /// An authority.
    Authority,
}

} // verus!
