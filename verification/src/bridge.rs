//! The bridge driver: the state of the bridge and what it decides on each
//! action.

use crate::action::{targeted, Action, ActionModel, ActiveLeavesModel, ActiveLeavesUpdate};
use crate::dispatch::{
    collation_messages,
    collation_messages_for,
    dispatch_collation_event_to_all,
    dispatch_collation_events_to_all,
    dispatch_validation_event_to_all,
    dispatch_validation_events_to_all,
    validation_messages,
    validation_messages_for,
    AllMessages,
    CollationProtocol,
    RoutedModel,
    ValidationProtocol,
};
use crate::effect::{Effect, EffectModel, Progress, ProgressModel};
use crate::event::{EventModel, NetworkBridgeEvent};
use crate::handler::{
    batch_entries,
    batch_events,
    batch_penalties,
    handle_peer_messages,
    Handled,
};
use crate::peers::{
    connected_peers,
    distinct_peers,
    has_peer,
    with_peer,
    without_peer,
    PeerEntries,
    PeerMap,
};
use crate::primitives::{views, BlockHash, BlockNumber, ObservedRole, PeerId, PeerSet};
use crate::reputation::ReputationChange;
use crate::view::{
    construct_view,
    constructed_view,
    share_heads,
    share_span,
    OurView,
    OurViewModel,
    View,
    ViewModel,
};
use crate::wire::{WireMessage, WireMessageModel};
use std::sync::Arc;
use vstd::prelude::*;
use vstd::view::View as _;

verus! {

/// The mathematical content of a [`BridgeState`].
pub struct BridgeModel<S> {
    /// The live heads with their tracing spans, the most recently activated last.
    pub live_heads: Seq<(BlockHash, Arc<S>)>,
    /// The view that was announced to the peers last.
    pub local_view: ViewModel,
    /// The number of the last finalized block.
    pub finalized_number: BlockNumber,
    /// The peers connected on the validation peer-set.
    pub validation_peers: PeerEntries,
    /// The peers connected on the collation peer-set.
    pub collation_peers: PeerEntries,
}

impl<S> BridgeModel<S> {
    /// The state at startup.
    pub open spec fn initial() -> BridgeModel<S> {
        BridgeModel {
            live_heads: Seq::empty(),
            local_view: ViewModel::empty(),
            finalized_number: 0,
            validation_peers: Seq::empty(),
            collation_peers: Seq::empty(),
        }
    }

    /// No peer has two entries on one peer-set.
    pub open spec fn wf(self) -> bool {
        &&& distinct_peers(self.validation_peers)
        &&& distinct_peers(self.collation_peers)
    }

    /// The peers connected on `peer_set`.
    pub open spec fn peers(self, peer_set: PeerSet) -> PeerEntries {
        match peer_set {
            PeerSet::Validation => self.validation_peers,
            PeerSet::Collation => self.collation_peers,
        }
    }

    /// This state with `entries` as the peers connected on `peer_set`.
    pub open spec fn with_peers(self, peer_set: PeerSet, entries: PeerEntries) -> BridgeModel<S> {
        match peer_set {
            PeerSet::Validation => BridgeModel { validation_peers: entries, ..self },
            PeerSet::Collation => BridgeModel { collation_peers: entries, ..self },
        }
    }

    /// Whether the bridge may be given `action` in this state: a finalized
    /// block must have a number above that of the last one.
    pub open spec fn admits<T, R>(self, action: ActionModel<T, S, R>) -> bool {
        action matches ActionModel::BlockFinalized(number) ==> self.finalized_number < number
    }
}

/// The live heads that are left when the `deactivated` ones are removed, in
/// their order.
pub open spec fn retained_heads<S>(
    live_heads: Seq<(BlockHash, Arc<S>)>,
    deactivated: Seq<BlockHash>,
) -> Seq<(BlockHash, Arc<S>)>
    decreases live_heads.len(),
{
    if live_heads.len() == 0 {
        Seq::empty()
    } else if deactivated.contains(live_heads.last().0) {
        retained_heads(live_heads.drop_last(), deactivated)
    } else {
        retained_heads(live_heads.drop_last(), deactivated).push(live_heads.last())
    }
}

/// The live heads after `update`: the activated heads are appended, then
/// the deactivated ones removed.
pub open spec fn updated_heads<S>(
    live_heads: Seq<(BlockHash, Arc<S>)>,
    update: ActiveLeavesModel<S>,
) -> Seq<(BlockHash, Arc<S>)> {
    retained_heads(live_heads + update.activated, update.deactivated)
}

/// The effect that writes `message` to `peers` on the validation peer-set;
/// none where there is no peer to write to.
pub open spec fn validation_write<T, S, R>(
    peers: Seq<Seq<u8>>,
    message: WireMessageModel<ValidationProtocol<T>>,
) -> Seq<EffectModel<T, S, R>> {
    if peers.len() == 0 {
        Seq::empty()
    } else {
        seq![EffectModel::SendValidationMessage(peers, message)]
    }
}

/// The effect that writes `message` to `peers` on the collation peer-set;
/// none where there is no peer to write to.
pub open spec fn collation_write<T, S, R>(
    peers: Seq<Seq<u8>>,
    message: WireMessageModel<CollationProtocol<T>>,
) -> Seq<EffectModel<T, S, R>> {
    if peers.len() == 0 {
        Seq::empty()
    } else {
        seq![EffectModel::SendCollationMessage(peers, message)]
    }
}

/// The effect that delivers `messages` to the subsystems as one send; none
/// where there is nothing to deliver.
pub open spec fn delivery<T, S, R>(messages: Seq<RoutedModel<T, S>>) -> Seq<EffectModel<T, S, R>> {
    if messages.len() == 0 {
        Seq::empty()
    } else {
        seq![EffectModel::SendMessages(messages)]
    }
}

/// The effects that report `peer` once for each of `penalties`, in order.
pub open spec fn reports<T, S, R>(peer: Seq<u8>, penalties: Seq<ReputationChange>) -> Seq<
    EffectModel<T, S, R>,
> {
    Seq::new(penalties.len(), |i: int| EffectModel::ReportPeer(peer, penalties[i]))
}

/// The effects of sending each of `messages` to its peers on the validation
/// peer-set, in order.
pub open spec fn validation_sends<T, S, R>(
    messages: Seq<(Seq<Seq<u8>>, ValidationProtocol<T>)>,
) -> Seq<EffectModel<T, S, R>>
    decreases messages.len(),
{
    if messages.len() == 0 {
        Seq::empty()
    } else {
        validation_sends(messages.drop_last()) + validation_write(
            messages.last().0,
            WireMessageModel::ProtocolMessage(messages.last().1),
        )
    }
}

/// The effects of sending each of `messages` to its peers on the collation
/// peer-set, in order.
pub open spec fn collation_sends<T, S, R>(
    messages: Seq<(Seq<Seq<u8>>, CollationProtocol<T>)>,
) -> Seq<EffectModel<T, S, R>>
    decreases messages.len(),
{
    if messages.len() == 0 {
        Seq::empty()
    } else {
        collation_sends(messages.drop_last()) + collation_write(
            messages.last().0,
            WireMessageModel::ProtocolMessage(messages.last().1),
        )
    }
}

/// Whether the view built from the state differs, in its heads, from the
/// view announced last. A change of the finalized number alone is no change.
pub open spec fn view_changed<S>(state: BridgeModel<S>) -> bool {
    constructed_view(state.live_heads, state.finalized_number).heads != state.local_view.heads
}

/// The state after the node's view was brought up to date: where the heads
/// changed, the new view is the one announced last.
pub open spec fn refreshed<S>(state: BridgeModel<S>) -> BridgeModel<S> {
    if view_changed(state) {
        BridgeModel {
            local_view: constructed_view(state.live_heads, state.finalized_number),
            ..state
        }
    } else {
        state
    }
}

/// The effects of bringing the node's view up to date. Where the heads
/// changed: the new view goes to every validation peer and to every
/// collation peer, and the subsystems of both peer-sets learn of the
/// change. Otherwise nothing happens.
pub open spec fn refresh_effects<T, S, R>(state: BridgeModel<S>) -> Seq<EffectModel<T, S, R>> {
    if view_changed(state) {
        let view = constructed_view(state.live_heads, state.finalized_number);
        let our_view = OurViewModel {
            heads: state.live_heads,
            finalized_number: state.finalized_number,
        };
        validation_write(
            connected_peers(state.validation_peers),
            WireMessageModel::ViewUpdate(view),
        ) + collation_write(
            connected_peers(state.collation_peers),
            WireMessageModel::ViewUpdate(view),
        ) + delivery(validation_messages_for(EventModel::OurViewChange(our_view))) + delivery(
            collation_messages_for(EventModel::OurViewChange(our_view)),
        )
    } else {
        Seq::empty()
    }
}

/// The events that tell the subsystems of a peer-set that `peer` connected
/// with `role`: the connection, then its view, which is empty.
pub open spec fn connection_events<M, S>(peer: Seq<u8>, role: ObservedRole) -> Seq<
    EventModel<M, S>,
> {
    seq![
        EventModel::PeerConnected(peer, role),
        EventModel::PeerViewChange(peer, ViewModel::empty()),
    ]
}

/// The messages that tell the subsystems of `peer_set` that `peer`
/// connected with `role`.
pub open spec fn connection_messages<T, S>(
    peer_set: PeerSet,
    peer: Seq<u8>,
    role: ObservedRole,
) -> Seq<RoutedModel<T, S>> {
    match peer_set {
        PeerSet::Validation => validation_messages(
            connection_events::<ValidationProtocol<T>, S>(peer, role),
        ),
        PeerSet::Collation => collation_messages(
            connection_events::<CollationProtocol<T>, S>(peer, role),
        ),
    }
}

/// The messages that tell the subsystems of `peer_set` that `peer`
/// disconnected.
pub open spec fn disconnection_messages<T, S>(peer_set: PeerSet, peer: Seq<u8>) -> Seq<
    RoutedModel<T, S>,
> {
    match peer_set {
        PeerSet::Validation => validation_messages_for(
            EventModel::<ValidationProtocol<T>, S>::PeerDisconnected(peer),
        ),
        PeerSet::Collation => collation_messages_for(
            EventModel::<CollationProtocol<T>, S>::PeerDisconnected(peer),
        ),
    }
}

/// The effects of a batch of validation messages from `peer`: its
/// penalties, then the delivery of its events. An empty batch has none.
pub open spec fn validation_batch_effects<T, S, R>(
    entries: PeerEntries,
    peer: Seq<u8>,
    messages: Seq<WireMessageModel<ValidationProtocol<T>>>,
) -> Seq<EffectModel<T, S, R>> {
    if messages.len() == 0 {
        Seq::empty()
    } else {
        reports(peer, batch_penalties::<ValidationProtocol<T>, S>(entries, peer, messages))
            + delivery(
            validation_messages(batch_events::<ValidationProtocol<T>, S>(entries, peer, messages)),
        )
    }
}

/// The effects of a batch of collation messages from `peer`: its penalties,
/// then the delivery of its events. An empty batch has none.
pub open spec fn collation_batch_effects<T, S, R>(
    entries: PeerEntries,
    peer: Seq<u8>,
    messages: Seq<WireMessageModel<CollationProtocol<T>>>,
) -> Seq<EffectModel<T, S, R>> {
    if messages.len() == 0 {
        Seq::empty()
    } else {
        reports(peer, batch_penalties::<CollationProtocol<T>, S>(entries, peer, messages))
            + delivery(
            collation_messages(batch_events::<CollationProtocol<T>, S>(entries, peer, messages)),
        )
    }
}

/// The entries of a peer-set after a batch of messages from `peer`; an
/// empty batch changes nothing.
pub open spec fn entries_after_batch<M, S>(
    entries: PeerEntries,
    peer: Seq<u8>,
    messages: Seq<WireMessageModel<M>>,
) -> PeerEntries {
    if messages.len() == 0 {
        entries
    } else {
        batch_entries::<M, S>(entries, peer, messages)
    }
}

/// The state of the bridge after `action`.
pub open spec fn next_state<T, S, R>(
    state: BridgeModel<S>,
    action: ActionModel<T, S, R>,
) -> BridgeModel<S> {
    match action {
        ActionModel::ActiveLeaves(update) => refreshed(
            BridgeModel { live_heads: updated_heads(state.live_heads, update), ..state },
        ),
        ActionModel::BlockFinalized(number) => BridgeModel { finalized_number: number, ..state },
        ActionModel::PeerConnected(peer_set, peer, _) => state.with_peers(
            peer_set,
            with_peer(state.peers(peer_set), peer),
        ),
        ActionModel::PeerDisconnected(peer_set, peer) => state.with_peers(
            peer_set,
            without_peer(state.peers(peer_set), peer),
        ),
        ActionModel::PeerMessages(peer, validation, collation) => BridgeModel {
            validation_peers: entries_after_batch::<ValidationProtocol<T>, S>(
                state.validation_peers,
                peer,
                validation,
            ),
            collation_peers: entries_after_batch::<CollationProtocol<T>, S>(
                state.collation_peers,
                peer,
                collation,
            ),
            ..state
        },
        _ => state,
    }
}

/// The effects of `action` in `state`, in the order in which they are to
/// be performed.
pub open spec fn effects_of<T, S, R>(
    state: BridgeModel<S>,
    action: ActionModel<T, S, R>,
) -> Seq<EffectModel<T, S, R>> {
    match action {
        ActionModel::Nop => Seq::empty(),
        ActionModel::Abort => Seq::empty(),
        ActionModel::SendValidationMessages(messages) => validation_sends(messages),
        ActionModel::SendCollationMessages(messages) => collation_sends(messages),
        ActionModel::ConnectToValidators(request) => seq![
            EffectModel::ConnectToValidators(request),
        ],
        ActionModel::ReportPeer(peer, change) => seq![EffectModel::ReportPeer(peer, change)],
        ActionModel::ActiveLeaves(update) => refresh_effects(
            BridgeModel { live_heads: updated_heads(state.live_heads, update), ..state },
        ),
        ActionModel::BlockFinalized(_) => Seq::empty(),
        ActionModel::PeerConnected(peer_set, peer, role) => if has_peer(
            state.peers(peer_set),
            peer,
        ) {
            Seq::empty()
        } else {
            seq![EffectModel::DiscoveryPeerConnected(peer)] + delivery(
                connection_messages(peer_set, peer, role),
            )
        },
        ActionModel::PeerDisconnected(peer_set, peer) => seq![
            EffectModel::DiscoveryPeerDisconnected(peer),
        ] + (if has_peer(state.peers(peer_set), peer) {
            delivery(disconnection_messages(peer_set, peer))
        } else {
            Seq::empty()
        }),
        ActionModel::PeerMessages(peer, validation, collation) => validation_batch_effects(
            state.validation_peers,
            peer,
            validation,
        ) + collation_batch_effects(state.collation_peers, peer, collation),
    }
}

/// What the bridge decides on `action` in `state`: to stop on `Abort`, and
/// else to go on after the effects of the action.
pub open spec fn progress_of<T, S, R>(
    state: BridgeModel<S>,
    action: ActionModel<T, S, R>,
) -> ProgressModel<T, S, R> {
    match action {
        ActionModel::Abort => ProgressModel::Stop,
        _ => ProgressModel::Continue(effects_of(state, action)),
    }
}

/// The state of the bridge: the live heads, the finalized number, the view
/// announced last, and the peers connected on each peer-set.
#[derive(Debug)]
pub struct BridgeState<S> {
    live_heads: Vec<(BlockHash, Arc<S>)>,
    local_view: View,
    finalized_number: BlockNumber,
    validation_peers: PeerMap,
    collation_peers: PeerMap,
}

impl<S> vstd::view::View for BridgeState<S> {
    type V = BridgeModel<S>;

    closed spec fn view(&self) -> BridgeModel<S> {
        BridgeModel {
            live_heads: self.live_heads@,
            local_view: self.local_view@,
            finalized_number: self.finalized_number,
            validation_peers: self.validation_peers@,
            collation_peers: self.collation_peers@,
        }
    }
}

/// Whether `hash` is one of `hashes`.
fn listed(hashes: &Vec<BlockHash>, hash: &BlockHash) -> (found: bool)
    ensures
        found == hashes@.contains(*hash),
{
    let mut i: usize = 0;
    while i < hashes.len()
        invariant
            i <= hashes.len(),
            forall|j: int| 0 <= j < i ==> hashes@[j] != *hash,
        decreases hashes.len() - i,
    {
        if hashes[i] == *hash {
            return true;
        }
        i += 1;
    }
    false
}

/// The live heads that are left when the `deactivated` ones are removed.
fn retain_heads<S>(live_heads: &Vec<(BlockHash, Arc<S>)>, deactivated: &Vec<BlockHash>) -> (kept:
    Vec<(BlockHash, Arc<S>)>)
    ensures
        kept@ == retained_heads(live_heads@, deactivated@),
{
    let mut kept: Vec<(BlockHash, Arc<S>)> = Vec::new();
    let mut i: usize = 0;
    assert(live_heads@.take(0) =~= Seq::empty());
    while i < live_heads.len()
        invariant
            i <= live_heads.len(),
            kept@ == retained_heads(live_heads@.take(i as int), deactivated@),
        decreases live_heads.len() - i,
    {
        assert(live_heads@.take(i + 1).drop_last() =~= live_heads@.take(i as int));
        assert(live_heads@.take(i + 1).last() == live_heads@[i as int]);
        if !listed(deactivated, &live_heads[i].0) {
            kept.push((live_heads[i].0, share_span(&live_heads[i].1)));
        }
        i += 1;
    }
    assert(live_heads@.take(live_heads@.len() as int) =~= live_heads@);
    kept
}

/// Adds to `effects` the write of `message` to `peers` on the validation
/// peer-set, if there is a peer to write to.
pub fn send_validation_message<T, S, R>(
    effects: &mut Vec<Effect<T, S, R>>,
    peers: Vec<PeerId>,
    message: WireMessage<ValidationProtocol<T>>,
)
    ensures
        views(final(effects)@) == views(old(effects)@) + validation_write::<T, S, R>(
            views(peers@),
            message@,
        ),
{
    if peers.len() > 0 {
        effects.push(Effect::SendValidationMessage(peers, message));
    }
    assert(views(effects@) =~= views(old(effects)@) + validation_write::<T, S, R>(
        views(peers@),
        message@,
    ));
}

/// Adds to `effects` the write of `message` to `peers` on the collation
/// peer-set, if there is a peer to write to.
pub fn send_collation_message<T, S, R>(
    effects: &mut Vec<Effect<T, S, R>>,
    peers: Vec<PeerId>,
    message: WireMessage<CollationProtocol<T>>,
)
    ensures
        views(final(effects)@) == views(old(effects)@) + collation_write::<T, S, R>(
            views(peers@),
            message@,
        ),
{
    if peers.len() > 0 {
        effects.push(Effect::SendCollationMessage(peers, message));
    }
    assert(views(effects@) =~= views(old(effects)@) + collation_write::<T, S, R>(
        views(peers@),
        message@,
    ));
}

/// Adds to `effects` the delivery of `messages`, if there is one to deliver.
fn deliver<T, S, R>(effects: &mut Vec<Effect<T, S, R>>, messages: Vec<AllMessages<T, S>>)
    ensures
        views(final(effects)@) == views(old(effects)@) + delivery::<T, S, R>(views(messages@)),
{
    if messages.len() > 0 {
        effects.push(Effect::SendMessages(messages));
    }
    assert(views(effects@) =~= views(old(effects)@) + delivery::<T, S, R>(views(messages@)));
}

/// Adds to `effects` one report of `peer` for each of `penalties`.
fn report<T, S, R>(
    effects: &mut Vec<Effect<T, S, R>>,
    peer: &PeerId,
    penalties: &Vec<ReputationChange>,
)
    ensures
        views(final(effects)@) == views(old(effects)@) + reports::<T, S, R>(peer@, penalties@),
{
    let mut i: usize = 0;
    assert(views(effects@) =~= views(old(effects)@) + reports::<T, S, R>(
        peer@,
        penalties@.take(0),
    ));
    while i < penalties.len()
        invariant
            i <= penalties.len(),
            views(effects@) == views(old(effects)@) + reports::<T, S, R>(
                peer@,
                penalties@.take(i as int),
            ),
        decreases penalties.len() - i,
    {
        let ghost before = effects@;
        effects.push(Effect::ReportPeer(peer.clone(), penalties[i]));
        assert(views(effects@) =~= views(before).push(
            EffectModel::ReportPeer(peer@, penalties@[i as int]),
        ));
        assert(reports::<T, S, R>(peer@, penalties@.take(i + 1)) =~= reports::<T, S, R>(
            peer@,
            penalties@.take(i as int),
        ).push(EffectModel::ReportPeer(peer@, penalties@[i as int])));
        i += 1;
    }
    assert(penalties@.take(penalties@.len() as int) =~= penalties@);
}

impl<S> BridgeState<S> {
    /// The invariant of the state: no peer has two entries on one peer-set.
    pub open spec fn wf(&self) -> bool {
        self@.wf()
    }

    /// The state at startup: no live head, finalized number 0, the empty
    /// view announced, no peer connected.
    pub fn new() -> (state: BridgeState<S>)
        ensures
            state@ == BridgeModel::<S>::initial(),
            state.wf(),
    {
        BridgeState {
            live_heads: Vec::new(),
            local_view: View::default(),
            finalized_number: 0,
            validation_peers: PeerMap::new(),
            collation_peers: PeerMap::new(),
        }
    }

    /// The number of the last finalized block.
    pub fn finalized_number(&self) -> (number: BlockNumber)
        ensures
            number == self@.finalized_number,
    {
        self.finalized_number
    }

    /// The view that was announced to the peers last.
    pub fn local_view(&self) -> (view: &View)
        ensures
            view@ == self@.local_view,
    {
        &self.local_view
    }

    /// The live heads with their tracing spans, the most recently activated last.
    pub fn live_heads(&self) -> (heads: &Vec<(BlockHash, Arc<S>)>)
        ensures
            heads@ == self@.live_heads,
    {
        &self.live_heads
    }

    /// The peers connected on `peer_set`.
    pub fn peers(&self, peer_set: PeerSet) -> (peers: &PeerMap)
        ensures
            peers@ == self@.peers(peer_set),
    {
        match peer_set {
            PeerSet::Validation => &self.validation_peers,
            PeerSet::Collation => &self.collation_peers,
        }
    }

    /// Whether the bridge may be given `action` in this state: a finalized
    /// block must have a number above that of the last one.
    pub fn admits<T, R>(&self, action: &Action<T, S, R>) -> (admitted: bool)
        ensures
            admitted == self@.admits(action@),
    {
        match action {
            Action::BlockFinalized(number) => self.finalized_number < *number,
            _ => true,
        }
    }

    /// Brings the node's view up to date with the live heads and the
    /// finalized number.
    ///
    /// Where the heads of the new view differ from those announced last, the
    /// new view is stored, written to every connected peer of both
    /// peer-sets, and the subsystems of both are told of the change. Where
    /// only the finalized number changed, nothing happens.
    pub fn update_our_view<T, R>(&mut self) -> (effects: Vec<Effect<T, S, R>>)
        requires
            old(self).wf(),
        ensures
            final(self).wf(),
            final(self)@ == refreshed(old(self)@),
            views(effects@) == refresh_effects::<T, S, R>(old(self)@),
    {
        let mut effects: Vec<Effect<T, S, R>> = Vec::new();
        assert(views(effects@) =~= Seq::empty());
        let new_view = construct_view(&self.live_heads, self.finalized_number);
        if self.local_view.heads == new_view.heads {
            assert(self.local_view@.heads =~= new_view@.heads);
            return effects;
        }
        self.local_view = new_view.clone();
        send_validation_message(
            &mut effects,
            self.validation_peers.peers(),
            WireMessage::ViewUpdate(new_view.clone()),
        );
        send_collation_message(
            &mut effects,
            self.collation_peers.peers(),
            WireMessage::ViewUpdate(new_view),
        );
        let our_view = OurView::new(share_heads(&self.live_heads), self.finalized_number);
        let validation = dispatch_validation_event_to_all(
            NetworkBridgeEvent::OurViewChange(our_view.clone()),
        );
        deliver(&mut effects, validation);
        let collation = dispatch_collation_event_to_all(
            NetworkBridgeEvent::OurViewChange(our_view),
        );
        deliver(&mut effects, collation);
        effects
    }

    /// Connects `peer` on `peer_set`. A peer that is connected there already
    /// changes nothing; a new one gets an entry with the empty view, the
    /// discovery service is told, and the subsystems of the peer-set learn
    /// of the connection and then of the peer's empty view.
    fn peer_connected<T, R>(&mut self, peer_set: PeerSet, peer: PeerId, role: ObservedRole) -> (effects:
        Vec<Effect<T, S, R>>)
        requires
            old(self).wf(),
        ensures
            final(self).wf(),
            final(self)@ == next_state(
                old(self)@,
                ActionModel::<T, S, R>::PeerConnected(peer_set, peer@, role),
            ),
            views(effects@) == effects_of(
                old(self)@,
                ActionModel::<T, S, R>::PeerConnected(peer_set, peer@, role),
            ),
    {
        let mut effects: Vec<Effect<T, S, R>> = Vec::new();
        assert(views(effects@) =~= Seq::empty());
        let inserted = match peer_set {
            PeerSet::Validation => self.validation_peers.insert(peer.clone()),
            PeerSet::Collation => self.collation_peers.insert(peer.clone()),
        };
        if !inserted {
            return effects;
        }
        effects.push(Effect::DiscoveryPeerConnected(peer.clone()));
        assert(views(effects@) =~= seq![EffectModel::DiscoveryPeerConnected(peer@)]);
        let messages = match peer_set {
            PeerSet::Validation => {
                let mut events: Vec<NetworkBridgeEvent<ValidationProtocol<T>, S>> = Vec::new();
                events.push(NetworkBridgeEvent::PeerConnected(peer.clone(), role));
                events.push(NetworkBridgeEvent::PeerViewChange(peer, View::default()));
                assert(views(events@) =~= connection_events::<ValidationProtocol<T>, S>(
                    peer@,
                    role,
                ));
                dispatch_validation_events_to_all(events)
            },
            PeerSet::Collation => {
                let mut events: Vec<NetworkBridgeEvent<CollationProtocol<T>, S>> = Vec::new();
                events.push(NetworkBridgeEvent::PeerConnected(peer.clone(), role));
                events.push(NetworkBridgeEvent::PeerViewChange(peer, View::default()));
                assert(views(events@) =~= connection_events::<CollationProtocol<T>, S>(
                    peer@,
                    role,
                ));
                dispatch_collation_events_to_all(events)
            },
        };
        deliver(&mut effects, messages);
        effects
    }

    /// Disconnects `peer` from `peer_set`. The discovery service is told in
    /// any case; the subsystems of the peer-set only where the peer had an
    /// entry, which is removed.
    fn peer_disconnected<T, R>(&mut self, peer_set: PeerSet, peer: PeerId) -> (effects: Vec<
        Effect<T, S, R>,
    >)
        requires
            old(self).wf(),
        ensures
            final(self).wf(),
            final(self)@ == next_state(
                old(self)@,
                ActionModel::<T, S, R>::PeerDisconnected(peer_set, peer@),
            ),
            views(effects@) == effects_of(
                old(self)@,
                ActionModel::<T, S, R>::PeerDisconnected(peer_set, peer@),
            ),
    {
        let mut effects: Vec<Effect<T, S, R>> = Vec::new();
        effects.push(Effect::DiscoveryPeerDisconnected(peer.clone()));
        assert(views(effects@) =~= seq![EffectModel::DiscoveryPeerDisconnected(peer@)]);
        let removed = match peer_set {
            PeerSet::Validation => self.validation_peers.remove(&peer),
            PeerSet::Collation => self.collation_peers.remove(&peer),
        };
        if removed {
            let messages = match peer_set {
                PeerSet::Validation => dispatch_validation_event_to_all(
                    NetworkBridgeEvent::PeerDisconnected(peer),
                ),
                PeerSet::Collation => dispatch_collation_event_to_all(
                    NetworkBridgeEvent::PeerDisconnected(peer),
                ),
            };
            deliver(&mut effects, messages);
        } else {
            assert(views(effects@) =~= views(effects@) + Seq::empty());
        }
        effects
    }

    /// Handles what `peer` sent: the validation batch, if it is not empty,
    /// against the validation peers, then the collation batch, if it is not
    /// empty, against the collation peers. Each batch yields the reports of
    /// its penalties and then the delivery of its events.
    fn peer_messages<T, R>(
        &mut self,
        peer: PeerId,
        validation: Vec<WireMessage<ValidationProtocol<T>>>,
        collation: Vec<WireMessage<CollationProtocol<T>>>,
    ) -> (effects: Vec<Effect<T, S, R>>)
        requires
            old(self).wf(),
        ensures
            final(self).wf(),
            final(self)@ == next_state(
                old(self)@,
                ActionModel::<T, S, R>::PeerMessages(peer@, views(validation@), views(collation@)),
            ),
            views(effects@) == effects_of(
                old(self)@,
                ActionModel::<T, S, R>::PeerMessages(peer@, views(validation@), views(collation@)),
            ),
    {
        let mut effects: Vec<Effect<T, S, R>> = Vec::new();
        assert(views(effects@) =~= Seq::empty());
        if validation.len() > 0 {
            let handled: Handled<ValidationProtocol<T>, S> = handle_peer_messages(
                peer.clone(),
                &mut self.validation_peers,
                validation,
            );
            report(&mut effects, &peer, &handled.penalties);
            let messages = dispatch_validation_events_to_all(handled.events);
            deliver(&mut effects, messages);
        }
        let ghost first = views(effects@);
        assert(first =~= validation_batch_effects::<T, S, R>(
            old(self)@.validation_peers,
            peer@,
            views(validation@),
        ));
        if collation.len() > 0 {
            let handled: Handled<CollationProtocol<T>, S> = handle_peer_messages(
                peer.clone(),
                &mut self.collation_peers,
                collation,
            );
            report(&mut effects, &peer, &handled.penalties);
            let messages = dispatch_collation_events_to_all(handled.events);
            deliver(&mut effects, messages);
        }
        assert(views(effects@) =~= first + collation_batch_effects::<T, S, R>(
            old(self)@.collation_peers,
            peer@,
            views(collation@),
        ));
        effects
    }

    /// Decides what follows from `action`: the new state and, unless the
    /// action is `Abort`, the effects to perform, in order.
    ///
    /// A finalized block must have a number above that of the last one;
    /// [`BridgeState::admits`] tests it.
    pub fn handle_action<T, R>(&mut self, action: Action<T, S, R>) -> (progress: Progress<T, S, R>)
        requires
            old(self).wf(),
            old(self)@.admits(action@),
        ensures
            final(self).wf(),
            final(self)@ == next_state(old(self)@, action@),
            progress@ == progress_of(old(self)@, action@),
    {
        let effects = match action {
            Action::Nop => {
                let effects: Vec<Effect<T, S, R>> = Vec::new();
                assert(views(effects@) =~= Seq::empty());
                effects
            },
            Action::Abort => {
                return Progress::Stop;
            },
            Action::SendValidationMessages(messages) => send_validation_messages(messages),
            Action::SendCollationMessages(messages) => send_collation_messages(messages),
            Action::ConnectToValidators(request) => {
                let mut effects: Vec<Effect<T, S, R>> = Vec::new();
                effects.push(Effect::ConnectToValidators(request));
                assert(views(effects@) =~= seq![EffectModel::ConnectToValidators(request)]);
                effects
            },
            Action::ReportPeer(peer, change) => {
                let mut effects: Vec<Effect<T, S, R>> = Vec::new();
                effects.push(Effect::ReportPeer(peer, change));
                assert(views(effects@) =~= seq![EffectModel::ReportPeer(peer@, change)]);
                effects
            },
            Action::ActiveLeaves(update) => {
                let ActiveLeavesUpdate { mut activated, deactivated } = update;
                self.live_heads.append(&mut activated);
                self.live_heads = retain_heads(&self.live_heads, &deactivated);
                self.update_our_view()
            },
            Action::BlockFinalized(number) => {
                self.finalized_number = number;
                let effects: Vec<Effect<T, S, R>> = Vec::new();
                assert(views(effects@) =~= Seq::empty());
                effects
            },
            Action::PeerConnected(peer_set, peer, role) => self.peer_connected(
                peer_set,
                peer,
                role,
            ),
            Action::PeerDisconnected(peer_set, peer) => self.peer_disconnected(peer_set, peer),
            Action::PeerMessages(peer, validation, collation) => self.peer_messages(
                peer,
                validation,
                collation,
            ),
        };
        Progress::Continue(effects)
    }
}

/// The effects of sending each of `messages` to its peers on the validation
/// peer-set, in order.
fn send_validation_messages<T, S, R>(messages: Vec<(Vec<PeerId>, ValidationProtocol<T>)>) -> (effects:
    Vec<Effect<T, S, R>>)
    ensures
        views(effects@) == validation_sends::<T, S, R>(targeted(messages@)),
{
    let mut effects: Vec<Effect<T, S, R>> = Vec::new();
    let ghost all = targeted(messages@);
    assert(views(effects@) =~= Seq::empty());
    assert(all.take(0) =~= Seq::empty());
    for entry in it: messages.into_iter()
        invariant
            it.seq() == messages@,
            all == targeted(messages@),
            views(effects@) == validation_sends::<T, S, R>(all.take(it.index() as int)),
    {
        let ghost done = it.index() as int;
        assert(all.take(done + 1).drop_last() =~= all.take(done));
        assert(all.take(done + 1).last() == (views(entry.0@), entry.1));
        let (peers, message) = entry;
        send_validation_message(&mut effects, peers, WireMessage::ProtocolMessage(message));
    }
    assert(all.take(all.len() as int) =~= all);
    effects
}

/// The effects of sending each of `messages` to its peers on the collation
/// peer-set, in order.
fn send_collation_messages<T, S, R>(messages: Vec<(Vec<PeerId>, CollationProtocol<T>)>) -> (effects:
    Vec<Effect<T, S, R>>)
    ensures
        views(effects@) == collation_sends::<T, S, R>(targeted(messages@)),
{
    let mut effects: Vec<Effect<T, S, R>> = Vec::new();
    let ghost all = targeted(messages@);
    assert(views(effects@) =~= Seq::empty());
    assert(all.take(0) =~= Seq::empty());
    for entry in it: messages.into_iter()
        invariant
            it.seq() == messages@,
            all == targeted(messages@),
            views(effects@) == collation_sends::<T, S, R>(all.take(it.index() as int)),
    {
        let ghost done = it.index() as int;
        assert(all.take(done + 1).drop_last() =~= all.take(done));
        assert(all.take(done + 1).last() == (views(entry.0@), entry.1));
        let (peers, message) = entry;
        send_collation_message(&mut effects, peers, WireMessage::ProtocolMessage(message));
    }
    assert(all.take(all.len() as int) =~= all);
    effects
}

} // verus!
