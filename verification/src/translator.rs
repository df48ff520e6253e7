//! The action translator: brings what the subsystems ask for and what the
//! network reports into the one set of actions the bridge acts on.

use crate::action::{targeted, Action, ActionModel, ActiveLeavesModel, ActiveLeavesUpdate};
use crate::dispatch::{CollationProtocol, ValidationProtocol};
use crate::primitives::{views, BlockHash, BlockNumber, ObservedRole, PeerId, PeerSet};
use crate::reputation::{malformed_message_cost, ReputationChange};
use crate::wire::{WireMessage, WireMessageModel};
use vstd::prelude::*;

verus! {

/// The mathematical content of a [`NetworkBridgeMessage`].
pub enum NetworkBridgeMessageModel<T, R> {
    /// Report a peer to the network.
    ReportPeer(Seq<u8>, ReputationChange),
    /// Send a message to peers on the validation peer-set.
    SendValidationMessage(Seq<Seq<u8>>, ValidationProtocol<T>),
    /// Send a message to peers on the collation peer-set.
    SendCollationMessage(Seq<Seq<u8>>, CollationProtocol<T>),
    /// Connect to validators.
    ConnectToValidators(R),
}

/// A command that a subsystem gives to the bridge.
#[derive(Debug, PartialEq, Eq)]
pub enum NetworkBridgeMessage<T, R> {
    /// Report a peer to the network.
    ReportPeer(PeerId, ReputationChange),
    /// Send a message to peers on the validation peer-set.
    SendValidationMessage(Vec<PeerId>, ValidationProtocol<T>),
    /// Send a message to peers on the collation peer-set.
    SendCollationMessage(Vec<PeerId>, CollationProtocol<T>),
    /// Connect to validators; `R` holds whom to connect to and where to answer.
    ConnectToValidators(R),
}

impl<T, R> View for NetworkBridgeMessage<T, R> {
    type V = NetworkBridgeMessageModel<T, R>;

    open spec fn view(&self) -> NetworkBridgeMessageModel<T, R> {
        match *self {
            NetworkBridgeMessage::ReportPeer(peer, change) => NetworkBridgeMessageModel::ReportPeer(
                peer@,
                change,
            ),
            NetworkBridgeMessage::SendValidationMessage(peers, message) => {
                NetworkBridgeMessageModel::SendValidationMessage(views(peers@), message)
            },
            NetworkBridgeMessage::SendCollationMessage(peers, message) => {
                NetworkBridgeMessageModel::SendCollationMessage(views(peers@), message)
            },
            NetworkBridgeMessage::ConnectToValidators(request) => {
                NetworkBridgeMessageModel::ConnectToValidators(request)
            },
        }
    }
}

/// The mathematical content of an [`OverseerSignal`].
pub enum OverseerSignalModel<S> {
    /// The set of active heads changed.
    ActiveLeaves(ActiveLeavesModel<S>),
    /// The block with this hash and number was finalized.
    BlockFinalized(BlockHash, BlockNumber),
    /// The subsystem is to shut down.
    Conclude,
}

/// A signal on the life of the node, sent to every subsystem.
#[derive(Debug, PartialEq, Eq)]
pub enum OverseerSignal<S> {
    /// The set of active heads changed.
    ActiveLeaves(ActiveLeavesUpdate<S>),
    /// The block with this hash and number was finalized.
    BlockFinalized(BlockHash, BlockNumber),
    /// The subsystem is to shut down.
    Conclude,
}

impl<S> View for OverseerSignal<S> {
    type V = OverseerSignalModel<S>;

    open spec fn view(&self) -> OverseerSignalModel<S> {
        match *self {
            OverseerSignal::ActiveLeaves(update) => OverseerSignalModel::ActiveLeaves(update@),
            OverseerSignal::BlockFinalized(hash, number) => OverseerSignalModel::BlockFinalized(
                hash,
                number,
            ),
            OverseerSignal::Conclude => OverseerSignalModel::Conclude,
        }
    }
}

/// The mathematical content of a [`FromOverseer`].
pub enum FromOverseerModel<T, S, R> {
    /// A signal.
    Signal(OverseerSignalModel<S>),
    /// A command of another subsystem.
    Communication(NetworkBridgeMessageModel<T, R>),
}

/// What reaches the bridge from the subsystem bus.
#[derive(Debug, PartialEq, Eq)]
pub enum FromOverseer<T, S, R> {
    /// A signal.
    Signal(OverseerSignal<S>),
    /// A command of another subsystem.
    Communication(NetworkBridgeMessage<T, R>),
}

impl<T, S, R> View for FromOverseer<T, S, R> {
    type V = FromOverseerModel<T, S, R>;

    open spec fn view(&self) -> FromOverseerModel<T, S, R> {
        match *self {
            FromOverseer::Signal(signal) => FromOverseerModel::Signal(signal@),
            FromOverseer::Communication(message) => FromOverseerModel::Communication(message@),
        }
    }
}

/// The mathematical content of a list of received messages, of which some
/// could not be decoded.
pub open spec fn received<M>(messages: Seq<Option<WireMessage<M>>>) -> Seq<
    Option<WireMessageModel<M>>,
> {
    Seq::new(
        messages.len(),
        |i: int|
            match messages[i] {
                Some(message) => Some(message@),
                None => None,
            },
    )
}

/// The mathematical content of a [`NetworkEvent`].
pub enum NetworkEventModel<T> {
    /// A peer opened a stream.
    NotificationStreamOpened(Seq<u8>, Option<PeerSet>, ObservedRole),
    /// A peer closed a stream.
    NotificationStreamClosed(Seq<u8>, Option<PeerSet>),
    /// A peer sent notifications.
    NotificationsReceived(
        Seq<u8>,
        Seq<Option<WireMessageModel<ValidationProtocol<T>>>>,
        Seq<Option<WireMessageModel<CollationProtocol<T>>>>,
    ),
    /// Anything else.
    Other,
}

/// What the network reports to the bridge.
#[derive(Debug, PartialEq, Eq)]
pub enum NetworkEvent<T> {
    /// A peer opened a stream. The peer-set is that of the stream's
    /// protocol, and `None` for a protocol that is none of the bridge's.
    NotificationStreamOpened(PeerId, Option<PeerSet>, ObservedRole),
    /// A peer closed a stream of the protocol of the peer-set, if any.
    NotificationStreamClosed(PeerId, Option<PeerSet>),
    /// A peer sent notifications: those on the validation protocol and
    /// those on the collation protocol, each in the order received, with
    /// `None` for one that could not be decoded.
    NotificationsReceived(
        PeerId,
        Vec<Option<WireMessage<ValidationProtocol<T>>>>,
        Vec<Option<WireMessage<CollationProtocol<T>>>>,
    ),
    /// Anything else, which is of no concern to the bridge.
    Other,
}

impl<T> View for NetworkEvent<T> {
    type V = NetworkEventModel<T>;

    open spec fn view(&self) -> NetworkEventModel<T> {
        match *self {
            NetworkEvent::NotificationStreamOpened(peer, peer_set, role) => {
                NetworkEventModel::NotificationStreamOpened(peer@, peer_set, role)
            },
            NetworkEvent::NotificationStreamClosed(peer, peer_set) => {
                NetworkEventModel::NotificationStreamClosed(peer@, peer_set)
            },
            NetworkEvent::NotificationsReceived(peer, validation, collation) => {
                NetworkEventModel::NotificationsReceived(
                    peer@,
                    received(validation@),
                    received(collation@),
                )
            },
            NetworkEvent::Other => NetworkEventModel::Other,
        }
    }
}

/// Whether every one of `messages` could be decoded.
pub open spec fn all_decoded<M>(messages: Seq<Option<M>>) -> bool {
    forall|i: int| 0 <= i < messages.len() ==> messages[i] is Some
}

/// The messages of a list in which every one could be decoded.
pub open spec fn decoded<M>(messages: Seq<Option<M>>) -> Seq<M> {
    Seq::new(messages.len(), |i: int| messages[i]->Some_0)
}

/// The action for what came from the subsystem bus; `None` stands for a
/// bus that failed to deliver, which ends the bridge as the signal to
/// conclude does.
pub open spec fn action_from_overseer<T, S, R>(
    message: Option<FromOverseerModel<T, S, R>>,
) -> ActionModel<T, S, R> {
    match message {
        None => ActionModel::Abort,
        Some(FromOverseerModel::Signal(signal)) => match signal {
            OverseerSignalModel::ActiveLeaves(update) => ActionModel::ActiveLeaves(update),
            OverseerSignalModel::BlockFinalized(_, number) => ActionModel::BlockFinalized(number),
            OverseerSignalModel::Conclude => ActionModel::Abort,
        },
        Some(FromOverseerModel::Communication(command)) => match command {
            NetworkBridgeMessageModel::ReportPeer(peer, change) => ActionModel::ReportPeer(
                peer,
                change,
            ),
            NetworkBridgeMessageModel::SendValidationMessage(peers, message) => {
                ActionModel::SendValidationMessages(seq![(peers, message)])
            },
            NetworkBridgeMessageModel::SendCollationMessage(peers, message) => {
                ActionModel::SendCollationMessages(seq![(peers, message)])
            },
            NetworkBridgeMessageModel::ConnectToValidators(request) => {
                ActionModel::ConnectToValidators(request)
            },
        },
    }
}

/// The action for what the network reported; `None` stands for the end of
/// the network's events, which ends the bridge.
///
/// A stream on a protocol of the bridge connects or disconnects the peer
/// on that peer-set. Notifications become the peer's messages, unless one
/// of them could not be decoded: then the peer is reported for a malformed
/// message and all of them are dropped.
pub open spec fn action_from_network<T, S, R>(event: Option<NetworkEventModel<T>>) -> ActionModel<
    T,
    S,
    R,
> {
    match event {
        None => ActionModel::Abort,
        Some(NetworkEventModel::Other) => ActionModel::Nop,
        Some(NetworkEventModel::NotificationStreamOpened(peer, peer_set, role)) => match peer_set {
            Some(peer_set) => ActionModel::PeerConnected(peer_set, peer, role),
            None => ActionModel::Nop,
        },
        Some(NetworkEventModel::NotificationStreamClosed(peer, peer_set)) => match peer_set {
            Some(peer_set) => ActionModel::PeerDisconnected(peer_set, peer),
            None => ActionModel::Nop,
        },
        Some(NetworkEventModel::NotificationsReceived(peer, validation, collation)) => {
            if all_decoded(validation) && all_decoded(collation) {
                ActionModel::PeerMessages(peer, decoded(validation), decoded(collation))
            } else {
                ActionModel::ReportPeer(peer, malformed_message_cost())
            }
        },
    }
}

/// The messages of `messages` if every one could be decoded.
fn unwrap_all<M>(messages: Vec<Option<WireMessage<M>>>) -> (unwrapped: Option<Vec<WireMessage<M>>>)
    ensures
        match unwrapped {
            Some(unwrapped) => all_decoded(received(messages@)) && views(unwrapped@) == decoded(
                received(messages@),
            ),
            None => !all_decoded(received(messages@)),
        },
{
    let mut unwrapped: Vec<WireMessage<M>> = Vec::new();
    let ghost all = received(messages@);
    for message in it: messages.into_iter()
        invariant
            it.seq() == messages@,
            all == received(messages@),
            unwrapped@.len() == it.index(),
            forall|i: int| 0 <= i < it.index() ==> all[i] == Some(#[trigger] unwrapped@[i]@),
    {
        match message {
            Some(message) => {
                unwrapped.push(message);
            },
            None => {
                assert(all[it.index() as int] is None);
                return None;
            },
        }
    }
    assert forall|i: int| 0 <= i < all.len() implies all[i] is Some by {
        assert(all[i] == Some(unwrapped@[i]@));
    }
    assert(views(unwrapped@) =~= decoded(all));
    Some(unwrapped)
}

impl<T, S, R> Action<T, S, R> {
    /// The action for what came from the subsystem bus; `None` stands for
    /// a bus that failed to deliver.
    pub fn from_overseer(message: Option<FromOverseer<T, S, R>>) -> (action: Action<T, S, R>)
        ensures
            action@ == action_from_overseer(
                match message {
                    Some(message) => Some(message@),
                    None => None,
                },
            ),
    {
        match message {
            None => Action::Abort,
            Some(FromOverseer::Signal(signal)) => match signal {
                OverseerSignal::ActiveLeaves(update) => Action::ActiveLeaves(update),
                OverseerSignal::BlockFinalized(_, number) => Action::BlockFinalized(number),
                OverseerSignal::Conclude => Action::Abort,
            },
            Some(FromOverseer::Communication(command)) => match command {
                NetworkBridgeMessage::ReportPeer(peer, change) => Action::ReportPeer(peer, change),
                NetworkBridgeMessage::SendValidationMessage(peers, message) => {
                    let mut messages: Vec<(Vec<PeerId>, ValidationProtocol<T>)> = Vec::new();
                    messages.push((peers, message));
                    assert(targeted(messages@) =~= seq![(views(peers@), message)]);
                    Action::SendValidationMessages(messages)
                },
                NetworkBridgeMessage::SendCollationMessage(peers, message) => {
                    let mut messages: Vec<(Vec<PeerId>, CollationProtocol<T>)> = Vec::new();
                    messages.push((peers, message));
                    assert(targeted(messages@) =~= seq![(views(peers@), message)]);
                    Action::SendCollationMessages(messages)
                },
                NetworkBridgeMessage::ConnectToValidators(request) => Action::ConnectToValidators(
                    request,
                ),
            },
        }
    }

    /// The action for what the network reported; `None` stands for the
    /// end of the network's events.
    pub fn from_network(event: Option<NetworkEvent<T>>) -> (action: Action<T, S, R>)
        ensures
            action@ == action_from_network::<T, S, R>(
                match event {
                    Some(event) => Some(event@),
                    None => None,
                },
            ),
    {
        match event {
            None => Action::Abort,
            Some(NetworkEvent::Other) => Action::Nop,
            Some(NetworkEvent::NotificationStreamOpened(peer, peer_set, role)) => match peer_set {
                Some(peer_set) => Action::PeerConnected(peer_set, peer, role),
                None => Action::Nop,
            },
            Some(NetworkEvent::NotificationStreamClosed(peer, peer_set)) => match peer_set {
                Some(peer_set) => Action::PeerDisconnected(peer_set, peer),
                None => Action::Nop,
            },
            Some(NetworkEvent::NotificationsReceived(peer, validation, collation)) => {
                let validation = match unwrap_all(validation) {
                    Some(validation) => validation,
                    None => {
                        return Action::ReportPeer(peer, malformed_message_cost());
                    },
                };
                let collation = match unwrap_all(collation) {
                    Some(collation) => collation,
                    None => {
                        return Action::ReportPeer(peer, malformed_message_cost());
                    },
                };
                Action::PeerMessages(peer, validation, collation)
            },
        }
    }
}

/// The mathematical content of a list of notifications, each with the
/// peer-set of its protocol, if it has one.
pub open spec fn notifications(messages: Seq<(Option<PeerSet>, Vec<u8>)>) -> Seq<
    (Option<PeerSet>, Seq<u8>),
> {
    Seq::new(messages.len(), |i: int| (messages[i].0, messages[i].1@))
}

/// The notifications on the protocol of `peer_set`, in the order received.
pub open spec fn notifications_on(
    messages: Seq<(Option<PeerSet>, Seq<u8>)>,
    peer_set: PeerSet,
) -> Seq<Seq<u8>>
    decreases messages.len(),
{
    if messages.len() == 0 {
        Seq::empty()
    } else if messages.last().0 == Some(peer_set) {
        notifications_on(messages.drop_last(), peer_set).push(messages.last().1)
    } else {
        notifications_on(messages.drop_last(), peer_set)
    }
}

/// Sorts the notifications of a peer by the peer-set of their protocol:
/// first those on the validation protocol, second those on the collation
/// protocol, each in the order received. Notifications on other protocols
/// are dropped.
pub fn split_notifications(messages: Vec<(Option<PeerSet>, Vec<u8>)>) -> (split: (
    Vec<Vec<u8>>,
    Vec<Vec<u8>>,
))
    ensures
        views(split.0@) == notifications_on(notifications(messages@), PeerSet::Validation),
        views(split.1@) == notifications_on(notifications(messages@), PeerSet::Collation),
{
    let mut validation: Vec<Vec<u8>> = Vec::new();
    let mut collation: Vec<Vec<u8>> = Vec::new();
    let ghost all = notifications(messages@);
    assert(all.take(0) =~= Seq::empty());
    assert(views(validation@) =~= Seq::empty());
    assert(views(collation@) =~= Seq::empty());
    for entry in it: messages.into_iter()
        invariant
            it.seq() == messages@,
            all == notifications(messages@),
            views(validation@) == notifications_on(
                all.take(it.index() as int),
                PeerSet::Validation,
            ),
            views(collation@) == notifications_on(all.take(it.index() as int), PeerSet::Collation),
    {
        let ghost done = it.index() as int;
        let ghost validation_before = validation@;
        let ghost collation_before = collation@;
        assert(all.take(done + 1).drop_last() =~= all.take(done));
        assert(all.take(done + 1).last() == (entry.0, entry.1@));
        let (peer_set, bytes) = entry;
        match peer_set {
            Some(PeerSet::Validation) => {
                validation.push(bytes);
                assert(views(validation@) =~= views(validation_before).push(bytes@));
            },
            Some(PeerSet::Collation) => {
                collation.push(bytes);
                assert(views(collation@) =~= views(collation_before).push(bytes@));
            },
            None => {},
        }
    }
    assert(all.take(all.len() as int) =~= all);
    (validation, collation)
}

} // verus!
