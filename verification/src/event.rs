//! The events the bridge reports to the subsystems that consume a peer-set.

use crate::primitives::{ObservedRole, PeerId};
use crate::view::{OurView, OurViewModel, View, ViewModel};
use vstd::prelude::*;
use vstd::view::View as _;

verus! {

/// The mathematical content of a [`NetworkBridgeEvent`].
pub enum EventModel<M, S> {
    /// A peer connected with the given role.
    PeerConnected(Seq<u8>, ObservedRole),
    /// A peer disconnected.
    PeerDisconnected(Seq<u8>),
    /// A peer sent a protocol message.
    PeerMessage(Seq<u8>, M),
    /// A peer announced a new view.
    PeerViewChange(Seq<u8>, ViewModel),
    /// The view of this node changed.
    OurViewChange(OurViewModel<S>),
}

/// What happened on a peer-set, as told to a subsystem that consumes it.
///
/// `M` is the type of the protocol messages the event may carry, `S` the
/// type of the tracing spans attached to live heads.
#[derive(Debug, PartialEq, Eq)]
pub enum NetworkBridgeEvent<M, S> {
    /// A peer connected with the given role.
    PeerConnected(PeerId, ObservedRole),
    /// A peer disconnected.
    PeerDisconnected(PeerId),
    /// A peer sent a protocol message.
    PeerMessage(PeerId, M),
    /// A peer announced a new view.
    PeerViewChange(PeerId, View),
    /// The view of this node changed.
    OurViewChange(OurView<S>),
}

impl<M, S> vstd::view::View for NetworkBridgeEvent<M, S> {
    type V = EventModel<M, S>;

    open spec fn view(&self) -> EventModel<M, S> {
        match *self {
            NetworkBridgeEvent::PeerConnected(peer, role) => EventModel::PeerConnected(peer@, role),
            NetworkBridgeEvent::PeerDisconnected(peer) => EventModel::PeerDisconnected(peer@),
            NetworkBridgeEvent::PeerMessage(peer, message) => EventModel::PeerMessage(
                peer@,
                message,
            ),
            NetworkBridgeEvent::PeerViewChange(peer, view) => EventModel::PeerViewChange(
                peer@,
                view@,
            ),
            NetworkBridgeEvent::OurViewChange(our_view) => EventModel::OurViewChange(our_view@),
        }
    }
}

} // verus!
