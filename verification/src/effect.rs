//! The effects the bridge asks for: what to write to the network, what to
//! tell the discovery service and what to send to the subsystems.

use crate::dispatch::{AllMessages, CollationProtocol, RoutedModel, ValidationProtocol};
use crate::primitives::{views, PeerId};
use crate::reputation::ReputationChange;
use crate::wire::{WireMessage, WireMessageModel};
use vstd::prelude::*;

verus! {

/// The mathematical content of an [`Effect`].
pub enum EffectModel<T, S, R> {
    /// Write the message to each of the peers, in order, on the validation peer-set.
    SendValidationMessage(Seq<Seq<u8>>, WireMessageModel<ValidationProtocol<T>>),
    /// Write the message to each of the peers, in order, on the collation peer-set.
    SendCollationMessage(Seq<Seq<u8>>, WireMessageModel<CollationProtocol<T>>),
    /// Report the peer to the network.
    ReportPeer(Seq<u8>, ReputationChange),
    /// Hand the request to the discovery service.
    ConnectToValidators(R),
    /// Tell the discovery service that the peer connected.
    DiscoveryPeerConnected(Seq<u8>),
    /// Tell the discovery service that the peer disconnected.
    DiscoveryPeerDisconnected(Seq<u8>),
    /// Deliver the messages to the subsystems as one ordered send.
    SendMessages(Seq<RoutedModel<T, S>>),
}

/// One thing the bridge asks its surroundings to do.
///
/// The effects of an action are performed in order; a failure of the
/// network while performing one is fatal, and the rest is not performed.
#[derive(Debug, PartialEq, Eq)]
pub enum Effect<T, S, R> {
    /// Write the message to each of the peers, in order, on the validation peer-set.
    SendValidationMessage(Vec<PeerId>, WireMessage<ValidationProtocol<T>>),
    /// Write the message to each of the peers, in order, on the collation peer-set.
    SendCollationMessage(Vec<PeerId>, WireMessage<CollationProtocol<T>>),
    /// Report the peer to the network.
    ReportPeer(PeerId, ReputationChange),
    /// Hand the request to the discovery service.
    ConnectToValidators(R),
    /// Tell the discovery service that the peer connected.
    DiscoveryPeerConnected(PeerId),
    /// Tell the discovery service that the peer disconnected.
    DiscoveryPeerDisconnected(PeerId),
    /// Deliver the messages to the subsystems as one ordered send.
    SendMessages(Vec<AllMessages<T, S>>),
}

impl<T, S, R> View for Effect<T, S, R> {
    type V = EffectModel<T, S, R>;

    open spec fn view(&self) -> EffectModel<T, S, R> {
        match *self {
            Effect::SendValidationMessage(peers, message) => EffectModel::SendValidationMessage(
                views(peers@),
                message@,
            ),
            Effect::SendCollationMessage(peers, message) => EffectModel::SendCollationMessage(
                views(peers@),
                message@,
            ),
            Effect::ReportPeer(peer, change) => EffectModel::ReportPeer(peer@, change),
            Effect::ConnectToValidators(request) => EffectModel::ConnectToValidators(request),
            Effect::DiscoveryPeerConnected(peer) => EffectModel::DiscoveryPeerConnected(peer@),
            Effect::DiscoveryPeerDisconnected(peer) => EffectModel::DiscoveryPeerDisconnected(
                peer@,
            ),
            Effect::SendMessages(messages) => EffectModel::SendMessages(views(messages@)),
        }
    }
}

/// The mathematical content of a [`Progress`].
pub enum ProgressModel<T, S, R> {
    /// Perform the effects, in order, and go on with the next action.
    Continue(Seq<EffectModel<T, S, R>>),
    /// Stop: the bridge has been told to shut down.
    Stop,
}

/// What the bridge decided on one action.
#[derive(Debug, PartialEq, Eq)]
pub enum Progress<T, S, R> {
    /// Perform the effects, in order, and go on with the next action.
    Continue(Vec<Effect<T, S, R>>),
    /// Stop: the bridge has been told to shut down.
    Stop,
}

impl<T, S, R> View for Progress<T, S, R> {
    type V = ProgressModel<T, S, R>;

    open spec fn view(&self) -> ProgressModel<T, S, R> {
        match *self {
            Progress::Continue(effects) => ProgressModel::Continue(views(effects@)),
            Progress::Stop => ProgressModel::Stop,
        }
    }
}

} // verus!
