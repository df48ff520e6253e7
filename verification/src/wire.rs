//! The messages peers exchange on a peer-set.

use crate::view::{View, ViewModel};
use vstd::prelude::*;
use vstd::view::View as _;

verus! {

/// The mathematical content of a [`WireMessage`].
pub enum WireMessageModel<M> {
    /// A message of the protocol spoken on the peer-set.
    ProtocolMessage(M),
    /// The announcement of the sender's view.
    ViewUpdate(ViewModel),
}

/// A message from or to a peer, as the subsystems see it.
#[derive(Debug, PartialEq, Eq)]
pub enum WireMessage<M> {
    /// A message of the protocol spoken on the peer-set.
    ProtocolMessage(M),
    /// The announcement of the sender's view.
    ViewUpdate(View),
}

impl<M> vstd::view::View for WireMessage<M> {
    type V = WireMessageModel<M>;

    open spec fn view(&self) -> WireMessageModel<M> {
        match *self {
            WireMessage::ProtocolMessage(message) => WireMessageModel::ProtocolMessage(message),
            WireMessage::ViewUpdate(view) => WireMessageModel::ViewUpdate(view@),
        }
    }
}

} // verus!
