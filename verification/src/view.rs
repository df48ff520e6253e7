//! Views: bounded summaries of the chain heads and the finalized block that a
//! node follows.

use crate::primitives::{BlockHash, BlockNumber};
use std::sync::Arc;
use vstd::prelude::*;
use vstd::std_specs::cmp::PartialEqSpecImpl;
use vstd::view::View as _;

verus! {

/// The maximum number of heads a peer may announce in its view.
///
/// The same limit bounds the view this node sends to its peers.
pub const MAX_VIEW_HEADS: usize = 5;

/// The mathematical content of a [`View`].
pub struct ViewModel {
    /// The announced heads, in announced order.
    pub heads: Seq<BlockHash>,
    /// The announced finalized block number.
    pub finalized_number: BlockNumber,
}

impl ViewModel {
    /// The view without heads at finalized number 0.
    pub open spec fn empty() -> ViewModel {
        ViewModel { heads: Seq::empty(), finalized_number: 0 }
    }
}

/// A node's announcement of the heads it follows and of its finalized block.
#[derive(Debug, Eq)]
pub struct View {
    /// The followed heads.
    pub heads: Vec<BlockHash>,
    /// The number of the last finalized block.
    pub finalized_number: BlockNumber,
}

impl vstd::view::View for View {
    type V = ViewModel;

    open spec fn view(&self) -> ViewModel {
        ViewModel { heads: self.heads@, finalized_number: self.finalized_number }
    }
}

impl View {
    /// The view of `heads` at `finalized_number`.
    pub fn new(heads: Vec<BlockHash>, finalized_number: BlockNumber) -> (view: View)
        ensures
            view@ == (ViewModel { heads: heads@, finalized_number }),
    {
        View { heads, finalized_number }
    }

    /// Whether `hash` is one of the heads of this view.
    pub fn contains(&self, hash: &BlockHash) -> (found: bool)
        ensures
            found == self@.heads.contains(*hash),
    {
        let mut i: usize = 0;
        while i < self.heads.len()
            invariant
                i <= self.heads.len(),
                forall|j: int| 0 <= j < i ==> self.heads@[j] != *hash,
            decreases self.heads.len() - i,
        {
            if self.heads[i] == *hash {
                return true;
            }
            i += 1;
        }
        false
    }
}

impl Default for View {
    fn default() -> (view: View)
        ensures
            view@ == ViewModel::empty(),
    {
        View { heads: Vec::new(), finalized_number: 0 }
    }
}

impl Clone for View {
    fn clone(&self) -> (copy: Self)
        ensures
            copy@ == self@,
    {
        View { heads: self.heads.clone(), finalized_number: self.finalized_number }
    }
}

impl PartialEq for View {
    fn eq(&self, other: &Self) -> (same: bool) {
        if self.finalized_number != other.finalized_number || self.heads.len()
            != other.heads.len() {
            return false;
        }
        let mut i: usize = 0;
        while i < self.heads.len()
            invariant
                i <= self.heads.len(),
                self.heads.len() == other.heads.len(),
                forall|j: int| 0 <= j < i ==> self.heads@[j] == other.heads@[j],
            decreases self.heads.len() - i,
        {
            if self.heads[i] != other.heads[i] {
                return false;
            }
            i += 1;
        }
        assert(self.heads@ =~= other.heads@);
        true
    }
}

impl PartialEqSpecImpl for View {
    open spec fn obeys_eq_spec() -> bool {
        true
    }

    open spec fn eq_spec(&self, other: &Self) -> bool {
        self@ == other@
    }
}

/// The hashes of a list of live heads, in the same order.
pub open spec fn head_hashes<S>(live_heads: Seq<(BlockHash, Arc<S>)>) -> Seq<BlockHash> {
    Seq::new(live_heads.len(), |i: int| live_heads[i].0)
}

/// The heads of the view built from `hashes`, which come the oldest
/// first: the `MAX_VIEW_HEADS` most recent of them (all, if there are
/// fewer), the most recent first.
pub open spec fn most_recent_heads(hashes: Seq<BlockHash>) -> Seq<BlockHash> {
    let count = if hashes.len() <= MAX_VIEW_HEADS {
        hashes.len()
    } else {
        MAX_VIEW_HEADS as nat
    };
    Seq::new(count, |i: int| hashes[hashes.len() - 1 - i])
}

/// The view a node with `live_heads` (oldest first) and `finalized_number`
/// announces.
pub open spec fn constructed_view<S>(
    live_heads: Seq<(BlockHash, Arc<S>)>,
    finalized_number: BlockNumber,
) -> ViewModel {
    ViewModel { heads: most_recent_heads(head_hashes(live_heads)), finalized_number }
}

/// Builds the view to announce from the live heads, oldest first, and the
/// finalized number: it holds the `MAX_VIEW_HEADS` most recently activated
/// heads, the most recent first.
pub fn construct_view<S>(live_heads: &Vec<(BlockHash, Arc<S>)>, finalized_number: BlockNumber) -> (view:
    View)
    ensures
        view@ == constructed_view(live_heads@, finalized_number),
        view@.heads.len() <= MAX_VIEW_HEADS,
{
    let len: usize = live_heads.len();
    let count: usize = if len <= MAX_VIEW_HEADS {
        len
    } else {
        MAX_VIEW_HEADS
    };
    let mut heads: Vec<BlockHash> = Vec::new();
    let mut i: usize = 0;
    while i < count
        invariant
            i <= count <= len,
            len == live_heads@.len(),
            heads@.len() == i,
            forall|j: int| 0 <= j < i ==> heads@[j] == live_heads@[len - 1 - j].0,
        decreases count - i,
    {
        heads.push(live_heads[len - 1 - i].0);
        i += 1;
    }
    assert(heads@ =~= most_recent_heads(head_hashes(live_heads@)));
    View { heads, finalized_number }
}

/// The mathematical content of an [`OurView`].
pub struct OurViewModel<S> {
    /// Every live head with its tracing handle, the oldest first.
    pub heads: Seq<(BlockHash, Arc<S>)>,
    /// The finalized block number.
    pub finalized_number: BlockNumber,
}

/// What the node tells its own subsystems when its view changed: all live
/// heads, each with its tracing handle, and the finalized number.
#[derive(Debug, PartialEq, Eq)]
pub struct OurView<S> {
    /// Every live head with its tracing handle, the oldest first.
    pub heads: Vec<(BlockHash, Arc<S>)>,
    /// The number of the last finalized block.
    pub finalized_number: BlockNumber,
}

impl<S> vstd::view::View for OurView<S> {
    type V = OurViewModel<S>;

    open spec fn view(&self) -> OurViewModel<S> {
        OurViewModel { heads: self.heads@, finalized_number: self.finalized_number }
    }
}

/// Another handle to the span that `span` refers to.
///
/// Wraps `Arc::clone`, which returns a pointer to the same allocation; the
/// contract says that the new handle refers to the same value.
#[verifier::external_body]
pub(crate) fn share_span<S>(span: &Arc<S>) -> (shared: Arc<S>)
    ensures
        shared == *span,
{
    Arc::clone(span)
}

/// A copy of `live_heads` whose tracing handles refer to the same spans.
pub fn share_heads<S>(live_heads: &Vec<(BlockHash, Arc<S>)>) -> (copy: Vec<(BlockHash, Arc<S>)>)
    ensures
        copy@ == live_heads@,
{
    let mut copy: Vec<(BlockHash, Arc<S>)> = Vec::new();
    let mut i: usize = 0;
    while i < live_heads.len()
        invariant
            i <= live_heads.len(),
            copy@ == live_heads@.take(i as int),
        decreases live_heads.len() - i,
    {
        let shared = share_span(&live_heads[i].1);
        copy.push((live_heads[i].0, shared));
        assert(live_heads@.take(i + 1) =~= live_heads@.take(i as int).push(live_heads@[i as int]));
        i += 1;
    }
    assert(live_heads@.take(live_heads@.len() as int) =~= live_heads@);
    copy
}

impl<S> OurView<S> {
    /// The announcement of `heads` at `finalized_number`.
    pub fn new(heads: Vec<(BlockHash, Arc<S>)>, finalized_number: BlockNumber) -> (our_view: OurView<S>)
        ensures
            our_view@ == (OurViewModel { heads: heads@, finalized_number }),
    {
        OurView { heads, finalized_number }
    }
}

impl<S> Clone for OurView<S> {
    fn clone(&self) -> (copy: Self)
        ensures
            copy@ == self@,
    {
        OurView { heads: share_heads(&self.heads), finalized_number: self.finalized_number }
    }
}

} // verus!
