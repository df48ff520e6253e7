//! The actions the bridge acts on: every command of a subsystem and every
//! event of the network, brought into one closed set.

use crate::dispatch::{CollationProtocol, ValidationProtocol};
use crate::primitives::{views, BlockHash, BlockNumber, ObservedRole, PeerId, PeerSet};
use crate::reputation::ReputationChange;
use crate::wire::{WireMessage, WireMessageModel};
use std::sync::Arc;
use vstd::prelude::*;

verus! {

/// The mathematical content of an [`ActiveLeavesUpdate`].
pub struct ActiveLeavesModel<S> {
    /// The heads that became active, each with its tracing span.
    pub activated: Seq<(BlockHash, Arc<S>)>,
    /// The heads that are of no interest any more.
    pub deactivated: Seq<BlockHash>,
}

/// A change of the set of active heads.
#[derive(Debug, PartialEq, Eq)]
pub struct ActiveLeavesUpdate<S> {
    /// The heads that became active, each with its tracing span.
    pub activated: Vec<(BlockHash, Arc<S>)>,
    /// The heads that are of no interest any more.
    pub deactivated: Vec<BlockHash>,
}

impl<S> View for ActiveLeavesUpdate<S> {
    type V = ActiveLeavesModel<S>;

    open spec fn view(&self) -> ActiveLeavesModel<S> {
        ActiveLeavesModel { activated: self.activated@, deactivated: self.deactivated@ }
    }
}

impl<S> ActiveLeavesUpdate<S> {
    /// The update that activates `hash`, traced by `span`, and nothing else.
    pub fn start_work(hash: BlockHash, span: Arc<S>) -> (update: ActiveLeavesUpdate<S>)
        ensures
            update@ == (ActiveLeavesModel {
                activated: seq![(hash, span)],
                deactivated: Seq::empty(),
            }),
    {
        let mut activated: Vec<(BlockHash, Arc<S>)> = Vec::new();
        activated.push((hash, span));
        let update = ActiveLeavesUpdate { activated, deactivated: Vec::new() };
        assert(update@.activated =~= seq![(hash, span)]);
        update
    }

    /// The update that deactivates `hash` and nothing else.
    pub fn stop_work(hash: BlockHash) -> (update: ActiveLeavesUpdate<S>)
        ensures
            update@ == (ActiveLeavesModel::<S> {
                activated: Seq::empty(),
                deactivated: seq![hash],
            }),
    {
        let mut deactivated: Vec<BlockHash> = Vec::new();
        deactivated.push(hash);
        let update = ActiveLeavesUpdate { activated: Vec::new(), deactivated };
        assert(update@.deactivated =~= seq![hash]);
        update
    }
}

impl<S> Default for ActiveLeavesUpdate<S> {
    fn default() -> (update: ActiveLeavesUpdate<S>)
        ensures
            update@ == (ActiveLeavesModel::<S> {
                activated: Seq::empty(),
                deactivated: Seq::empty(),
            }),
    {
        ActiveLeavesUpdate { activated: Vec::new(), deactivated: Vec::new() }
    }
}

/// The mathematical content of a list of messages, each with the peers it
/// is meant for.
pub open spec fn targeted<M>(messages: Seq<(Vec<PeerId>, M)>) -> Seq<(Seq<Seq<u8>>, M)> {
    Seq::new(messages.len(), |i: int| (views(messages[i].0@), messages[i].1))
}

/// The mathematical content of an [`Action`].
pub enum ActionModel<T, S, R> {
    /// Nothing to do.
    Nop,
    /// Stop.
    Abort,
    /// Send each message to its peers on the validation peer-set.
    SendValidationMessages(Seq<(Seq<Seq<u8>>, ValidationProtocol<T>)>),
    /// Send each message to its peers on the collation peer-set.
    SendCollationMessages(Seq<(Seq<Seq<u8>>, CollationProtocol<T>)>),
    /// Ask the discovery service to connect to validators.
    ConnectToValidators(R),
    /// Report a peer to the network.
    ReportPeer(Seq<u8>, ReputationChange),
    /// The set of active heads changed.
    ActiveLeaves(ActiveLeavesModel<S>),
    /// A block was finalized.
    BlockFinalized(BlockNumber),
    /// A peer connected on a peer-set.
    PeerConnected(PeerSet, Seq<u8>, ObservedRole),
    /// A peer disconnected from a peer-set.
    PeerDisconnected(PeerSet, Seq<u8>),
    /// A peer sent messages, some on the validation and some on the collation peer-set.
    PeerMessages(
        Seq<u8>,
        Seq<WireMessageModel<ValidationProtocol<T>>>,
        Seq<WireMessageModel<CollationProtocol<T>>>,
    ),
}

/// One thing for the bridge to act on.
///
/// `T` is the type of protocol payloads, `S` the type of tracing spans and
/// `R` the type of a request to the validator discovery service.
#[derive(Debug, PartialEq, Eq)]
pub enum Action<T, S, R> {
    /// Nothing to do.
    Nop,
    /// Stop.
    Abort,
    /// Send each message to its peers on the validation peer-set.
    SendValidationMessages(Vec<(Vec<PeerId>, ValidationProtocol<T>)>),
    /// Send each message to its peers on the collation peer-set.
    SendCollationMessages(Vec<(Vec<PeerId>, CollationProtocol<T>)>),
    /// Ask the discovery service to connect to validators.
    ConnectToValidators(R),
    /// Report a peer to the network.
    ReportPeer(PeerId, ReputationChange),
    /// The set of active heads changed.
    ActiveLeaves(ActiveLeavesUpdate<S>),
    /// A block was finalized.
    BlockFinalized(BlockNumber),
    /// A peer connected on a peer-set.
    PeerConnected(PeerSet, PeerId, ObservedRole),
    /// A peer disconnected from a peer-set.
    PeerDisconnected(PeerSet, PeerId),
    /// A peer sent messages, some on the validation and some on the collation peer-set.
    PeerMessages(
        PeerId,
        Vec<WireMessage<ValidationProtocol<T>>>,
        Vec<WireMessage<CollationProtocol<T>>>,
    ),
}

impl<T, S, R> View for Action<T, S, R> {
    type V = ActionModel<T, S, R>;

    open spec fn view(&self) -> ActionModel<T, S, R> {
        match *self {
            Action::Nop => ActionModel::Nop,
            Action::Abort => ActionModel::Abort,
            Action::SendValidationMessages(messages) => ActionModel::SendValidationMessages(
                targeted(messages@),
            ),
            Action::SendCollationMessages(messages) => ActionModel::SendCollationMessages(
                targeted(messages@),
            ),
            Action::ConnectToValidators(request) => ActionModel::ConnectToValidators(request),
            Action::ReportPeer(peer, change) => ActionModel::ReportPeer(peer@, change),
            Action::ActiveLeaves(update) => ActionModel::ActiveLeaves(update@),
            Action::BlockFinalized(number) => ActionModel::BlockFinalized(number),
            Action::PeerConnected(peer_set, peer, role) => ActionModel::PeerConnected(
                peer_set,
                peer@,
                role,
            ),
            Action::PeerDisconnected(peer_set, peer) => ActionModel::PeerDisconnected(
                peer_set,
                peer@,
            ),
            Action::PeerMessages(peer, validation, collation) => ActionModel::PeerMessages(
                peer@,
                views(validation@),
                views(collation@),
            ),
        }
    }
}

} // verus!
