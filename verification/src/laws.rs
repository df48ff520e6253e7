//! Laws of the bridge: what holds of every state, peer and message, proved
//! from the definitions of the other modules.

use crate::action::{ActionModel, ActiveLeavesModel};
use crate::bridge::{
    collation_write,
    connection_events,
    connection_messages,
    effects_of,
    next_state,
    reports,
    retained_heads,
    updated_heads,
    validation_write,
    view_changed,
    BridgeModel,
};
use crate::dispatch::{
    collation_consumers,
    collation_messages,
    collation_messages_for,
    focus_collation,
    focus_validation,
    received_by,
    routed_to,
    validation_consumer_of,
    validation_consumers,
    validation_messages,
    validation_messages_for,
    validation_payload_of,
    CollationProtocol,
    Consumer,
    RoutedModel,
    ValidationProtocol,
};
use crate::effect::EffectModel;
use crate::event::EventModel;
use crate::handler::{
    batch_entries,
    batch_events,
    batch_penalties,
    handle_message,
    handle_messages,
    HandledModel,
};
use crate::peers::{
    connected_peers,
    distinct_peers,
    has_peer,
    lemma_entries_updates,
    peer_index,
    stored_view,
    with_view,
    PeerEntries,
};
use crate::primitives::{BlockHash, ObservedRole, PeerSet};
use crate::reputation::{malformed_view_cost, unconnected_peerset_cost};
use crate::view::{constructed_view, most_recent_heads, OurViewModel, ViewModel, MAX_VIEW_HEADS};
use crate::wire::WireMessageModel;
use std::sync::Arc;
use vstd::prelude::*;

verus! {

/// The subsystems that consume `peer_set`, in the order in which an event
/// is offered to them.
pub open spec fn consumers_of(peer_set: PeerSet) -> Seq<Consumer> {
    match peer_set {
        PeerSet::Validation => validation_consumers(),
        PeerSet::Collation => collation_consumers(),
    }
}

/// The events of the validation peer-set that apply to `consumer`, each
/// narrowed to it, in order.
pub open spec fn focused_validation<T, S>(
    events: Seq<EventModel<ValidationProtocol<T>, S>>,
    consumer: Consumer,
) -> Seq<EventModel<T, S>>
    decreases events.len(),
{
    if events.len() == 0 {
        Seq::empty()
    } else {
        match focus_validation(events.last(), consumer) {
            Some(event) => focused_validation(events.drop_last(), consumer).push(event),
            None => focused_validation(events.drop_last(), consumer),
        }
    }
}

/// The events of the collation peer-set, each narrowed to the collator
/// protocol, in order.
pub open spec fn focused_collation<T, S>(events: Seq<EventModel<CollationProtocol<T>, S>>) -> Seq<
    EventModel<T, S>,
>
    decreases events.len(),
{
    if events.len() == 0 {
        Seq::empty()
    } else {
        match focus_collation(events.last()) {
            Some(event) => focused_collation(events.drop_last()).push(event),
            None => focused_collation(events.drop_last()),
        }
    }
}

/// What a consumer receives from two lists of messages, one after the
/// other, is what it receives from the first and then from the second.
pub proof fn lemma_received_by_concat<T, S>(
    first: Seq<RoutedModel<T, S>>,
    second: Seq<RoutedModel<T, S>>,
    consumer: Consumer,
)
    ensures
        received_by(first + second, consumer) == received_by(first, consumer) + received_by(
            second,
            consumer,
        ),
    decreases second.len(),
{
    if second.len() == 0 {
        assert(first + second =~= first);
        assert(received_by(first, consumer) + received_by(second, consumer) =~= received_by(
            first,
            consumer,
        ));
    } else {
        assert((first + second).drop_last() =~= first + second.drop_last());
        assert((first + second).last() == second.last());
        lemma_received_by_concat(first, second.drop_last(), consumer);
        assert(received_by(first + second, consumer) =~= received_by(first, consumer)
            + received_by(second, consumer));
    }
}

/// What a consumer receives from a single message: its event if the
/// message is for that consumer, else nothing.
pub proof fn lemma_received_by_single<T, S>(message: RoutedModel<T, S>, consumer: Consumer)
    ensures
        received_by(seq![message], consumer) == if message.consumer == consumer {
            seq![message.event]
        } else {
            Seq::empty()
        },
{
    assert(seq![message].drop_last() =~= Seq::empty());
    assert(received_by(seq![message].drop_last(), consumer) =~= Seq::empty());
    if message.consumer == consumer {
        assert(received_by(seq![message], consumer) =~= seq![message.event]);
    }
}

/// Of the messages that one event of the validation peer-set gives rise
/// to, each validation consumer receives the event narrowed to it, if the
/// event applies to it, and nothing else; the collator protocol receives
/// nothing.
pub proof fn validation_event_reaches_its_consumers<T, S>(
    event: EventModel<ValidationProtocol<T>, S>,
    consumer: Consumer,
)
    ensures
        received_by(validation_messages_for(event), consumer) == if consumer
            == Consumer::CollatorProtocol {
            Seq::empty()
        } else {
            match focus_validation(event, consumer) {
                Some(focused) => seq![focused],
                None => Seq::empty(),
            }
        },
{
    let a = routed_to(
        Consumer::AvailabilityDistribution,
        focus_validation(event, Consumer::AvailabilityDistribution),
    );
    let b = routed_to(
        Consumer::BitfieldDistribution,
        focus_validation(event, Consumer::BitfieldDistribution),
    );
    let p = routed_to(
        Consumer::PoVDistribution,
        focus_validation(event, Consumer::PoVDistribution),
    );
    let s = routed_to(
        Consumer::StatementDistribution,
        focus_validation(event, Consumer::StatementDistribution),
    );
    let v = routed_to(
        Consumer::ApprovalDistribution,
        focus_validation(event, Consumer::ApprovalDistribution),
    );
    lemma_received_by_routed(
        Consumer::AvailabilityDistribution,
        focus_validation(event, Consumer::AvailabilityDistribution),
        consumer,
    );
    lemma_received_by_routed(
        Consumer::BitfieldDistribution,
        focus_validation(event, Consumer::BitfieldDistribution),
        consumer,
    );
    lemma_received_by_routed(
        Consumer::PoVDistribution,
        focus_validation(event, Consumer::PoVDistribution),
        consumer,
    );
    lemma_received_by_routed(
        Consumer::StatementDistribution,
        focus_validation(event, Consumer::StatementDistribution),
        consumer,
    );
    lemma_received_by_routed(
        Consumer::ApprovalDistribution,
        focus_validation(event, Consumer::ApprovalDistribution),
        consumer,
    );
    lemma_received_by_concat(a, b, consumer);
    lemma_received_by_concat(a + b, p, consumer);
    lemma_received_by_concat(a + b + p, s, consumer);
    lemma_received_by_concat(a + b + p + s, v, consumer);
    assert(validation_messages_for(event) == a + b + p + s + v);
    assert(received_by(validation_messages_for(event), consumer) =~= if consumer
        == Consumer::CollatorProtocol {
        Seq::empty()
    } else {
        match focus_validation(event, consumer) {
            Some(focused) => seq![focused],
            None => Seq::empty(),
        }
    });
}

/// What `consumer` receives of the message that carries a narrowed event
/// to `target`.
proof fn lemma_received_by_routed<T, S>(
    target: Consumer,
    focused: Option<EventModel<T, S>>,
    consumer: Consumer,
)
    ensures
        received_by(routed_to(target, focused), consumer) == match focused {
            Some(event) => if target == consumer {
                seq![event]
            } else {
                Seq::empty()
            },
            None => Seq::empty(),
        },
{
    match focused {
        Some(event) => {
            lemma_received_by_single(RoutedModel { consumer: target, event }, consumer);
        },
        None => {},
    }
}

/// Of the messages that one event of the collation peer-set gives rise to,
/// the collator protocol receives the event narrowed to it, and no other
/// consumer receives anything.
pub proof fn collation_event_reaches_its_consumer<T, S>(
    event: EventModel<CollationProtocol<T>, S>,
    consumer: Consumer,
)
    ensures
        received_by(collation_messages_for(event), consumer) == if consumer
            == Consumer::CollatorProtocol {
            match focus_collation(event) {
                Some(focused) => seq![focused],
                None => Seq::empty(),
            }
        } else {
            Seq::empty()
        },
{
    lemma_received_by_routed(Consumer::CollatorProtocol, focus_collation(event), consumer);
}

/// Dispatching keeps the order of the events: of the messages of a batch
/// of validation events, each validation consumer receives, in the order
/// of the batch, exactly the events that apply to it.
pub proof fn validation_dispatch_keeps_order<T, S>(
    events: Seq<EventModel<ValidationProtocol<T>, S>>,
    consumer: Consumer,
)
    ensures
        received_by(validation_messages(events), consumer) == if consumer
            == Consumer::CollatorProtocol {
            Seq::empty()
        } else {
            focused_validation(events, consumer)
        },
    decreases events.len(),
{
    if events.len() > 0 {
        validation_dispatch_keeps_order(events.drop_last(), consumer);
        validation_event_reaches_its_consumers(events.last(), consumer);
        lemma_received_by_concat(
            validation_messages(events.drop_last()),
            validation_messages_for(events.last()),
            consumer,
        );
        assert(received_by(validation_messages(events), consumer) =~= if consumer
            == Consumer::CollatorProtocol {
            Seq::empty()
        } else {
            focused_validation(events, consumer)
        });
    }
}

/// Dispatching keeps the order of the events: of the messages of a batch
/// of collation events, the collator protocol receives every event that
/// applies to it, in the order of the batch, and no other consumer
/// receives anything.
pub proof fn collation_dispatch_keeps_order<T, S>(
    events: Seq<EventModel<CollationProtocol<T>, S>>,
    consumer: Consumer,
)
    ensures
        received_by(collation_messages(events), consumer) == if consumer
            == Consumer::CollatorProtocol {
            focused_collation(events)
        } else {
            Seq::empty()
        },
    decreases events.len(),
{
    if events.len() > 0 {
        collation_dispatch_keeps_order(events.drop_last(), consumer);
        collation_event_reaches_its_consumer(events.last(), consumer);
        lemma_received_by_concat(
            collation_messages(events.drop_last()),
            collation_messages_for(events.last()),
            consumer,
        );
        assert(received_by(collation_messages(events), consumer) =~= if consumer
            == Consumer::CollatorProtocol {
            focused_collation(events)
        } else {
            Seq::empty()
        });
    }
}

/// A message that a peer sent on the validation peer-set reaches the one
/// subsystem of its protocol, with its payload, and no other subsystem.
pub proof fn peer_message_reaches_one_consumer<T, S>(
    peer: Seq<u8>,
    message: ValidationProtocol<T>,
    consumer: Consumer,
)
    ensures
        validation_messages_for(EventModel::<ValidationProtocol<T>, S>::PeerMessage(peer, message))
            == seq![
            RoutedModel {
                consumer: validation_consumer_of(message),
                event: EventModel::<T, S>::PeerMessage(peer, validation_payload_of(message)),
            },
        ],
        received_by(
            validation_messages_for(
                EventModel::<ValidationProtocol<T>, S>::PeerMessage(peer, message),
            ),
            consumer,
        ) == if consumer == validation_consumer_of(message) {
            seq![EventModel::<T, S>::PeerMessage(peer, validation_payload_of(message))]
        } else {
            Seq::empty()
        },
{
    let event = EventModel::<ValidationProtocol<T>, S>::PeerMessage(peer, message);
    assert(validation_messages_for(event) =~= seq![
        RoutedModel {
            consumer: validation_consumer_of(message),
            event: EventModel::<T, S>::PeerMessage(peer, validation_payload_of(message)),
        },
    ]);
    validation_event_reaches_its_consumers(event, consumer);
}

/// A message that a peer sent on the collation peer-set reaches the
/// collator protocol, with its payload, and no other subsystem.
pub proof fn collation_message_reaches_collator_protocol<T, S>(
    peer: Seq<u8>,
    payload: T,
    consumer: Consumer,
)
    ensures
        received_by(
            collation_messages_for(
                EventModel::<CollationProtocol<T>, S>::PeerMessage(
                    peer,
                    CollationProtocol::CollatorProtocol(payload),
                ),
            ),
            consumer,
        ) == if consumer == Consumer::CollatorProtocol {
            seq![EventModel::<T, S>::PeerMessage(peer, payload)]
        } else {
            Seq::empty()
        },
{
    collation_event_reaches_its_consumer(
        EventModel::<CollationProtocol<T>, S>::PeerMessage(
            peer,
            CollationProtocol::CollatorProtocol(payload),
        ),
        consumer,
    );
}

/// The state after each of `actions`, in order.
pub open spec fn run<T, S, R>(state: BridgeModel<S>, actions: Seq<ActionModel<T, S, R>>) -> BridgeModel<
    S,
>
    decreases actions.len(),
{
    if actions.len() == 0 {
        state
    } else {
        next_state(run(state, actions.drop_last()), actions.last())
    }
}

/// No action gives a peer a second entry on a peer-set.
pub proof fn entries_stay_distinct<T, S, R>(state: BridgeModel<S>, action: ActionModel<T, S, R>)
    requires
        state.wf(),
    ensures
        next_state(state, action).wf(),
{
    match action {
        ActionModel::PeerConnected(peer_set, peer, _) => {
            lemma_entries_updates(state.peers(peer_set), peer, ViewModel::empty());
        },
        ActionModel::PeerDisconnected(peer_set, peer) => {
            lemma_entries_updates(state.peers(peer_set), peer, ViewModel::empty());
        },
        ActionModel::PeerMessages(peer, validation, collation) => {
            lemma_entries_updates(
                state.validation_peers,
                peer,
                handle_messages::<ValidationProtocol<T>, S>(
                    peer,
                    stored_view(state.validation_peers, peer),
                    validation,
                ).stored,
            );
            lemma_entries_updates(
                state.collation_peers,
                peer,
                handle_messages::<CollationProtocol<T>, S>(
                    peer,
                    stored_view(state.collation_peers, peer),
                    collation,
                ).stored,
            );
        },
        _ => {},
    }
}

/// A peer has an entry on a peer-set exactly while it is connected there:
/// an action changes whether `peer` has an entry on `peer_set` only if it
/// connects that peer on that peer-set, after which it has one, or
/// disconnects it there, after which it has none.
pub proof fn entry_exists_while_connected<T, S, R>(
    state: BridgeModel<S>,
    action: ActionModel<T, S, R>,
    peer_set: PeerSet,
    peer: Seq<u8>,
)
    requires
        state.wf(),
    ensures
        has_peer(next_state(state, action).peers(peer_set), peer) == (if action
            == ActionModel::<T, S, R>::PeerDisconnected(peer_set, peer) {
            false
        } else if action matches ActionModel::PeerConnected(set, connected, _) && set == peer_set
            && connected == peer {
            true
        } else {
            has_peer(state.peers(peer_set), peer)
        }),
{
    match action {
        ActionModel::PeerConnected(set, other, _) => {
            lemma_entries_updates(state.peers(set), other, ViewModel::empty());
        },
        ActionModel::PeerDisconnected(set, other) => {
            lemma_entries_updates(state.peers(set), other, ViewModel::empty());
        },
        ActionModel::PeerMessages(sender, validation, collation) => {
            lemma_entries_updates(
                state.validation_peers,
                sender,
                handle_messages::<ValidationProtocol<T>, S>(
                    sender,
                    stored_view(state.validation_peers, sender),
                    validation,
                ).stored,
            );
            lemma_entries_updates(
                state.collation_peers,
                sender,
                handle_messages::<CollationProtocol<T>, S>(
                    sender,
                    stored_view(state.collation_peers, sender),
                    collation,
                ).stored,
            );
        },
        _ => {},
    }
}

/// Connecting a peer that has no entry on the peer-set stores the empty
/// view for it, tells the discovery service, and delivers messages of
/// which every consumer of the peer-set receives exactly the connection
/// and then the peer's empty view.
pub proof fn connecting_announces_the_peer<T, S, R>(
    state: BridgeModel<S>,
    peer_set: PeerSet,
    peer: Seq<u8>,
    role: ObservedRole,
    consumer: Consumer,
)
    requires
        state.wf(),
        !has_peer(state.peers(peer_set), peer),
        consumers_of(peer_set).contains(consumer),
    ensures
        ({
            let action = ActionModel::<T, S, R>::PeerConnected(peer_set, peer, role);
            let next = next_state(state, action);
            &&& has_peer(next.peers(peer_set), peer)
            &&& stored_view(next.peers(peer_set), peer) == ViewModel::empty()
            &&& effects_of(state, action) == seq![
                EffectModel::<T, S, R>::DiscoveryPeerConnected(peer),
                EffectModel::<T, S, R>::SendMessages(
                    connection_messages::<T, S>(peer_set, peer, role),
                ),
            ]
            &&& received_by(connection_messages::<T, S>(peer_set, peer, role), consumer)
                == connection_events::<T, S>(peer, role)
        }),
{
    let action = ActionModel::<T, S, R>::PeerConnected(peer_set, peer, role);
    lemma_entries_updates(state.peers(peer_set), peer, ViewModel::empty());
    let messages = connection_messages::<T, S>(peer_set, peer, role);
    match peer_set {
        PeerSet::Validation => {
            let events = connection_events::<ValidationProtocol<T>, S>(peer, role);
            validation_dispatch_keeps_order(events, consumer);
            assert(events.drop_last() =~= seq![events[0]]);
            assert(events.drop_last().drop_last() =~= Seq::empty());
            assert(focused_validation(events.drop_last().drop_last(), consumer) =~= Seq::empty());
            assert(events.drop_last().last() == events[0]);
            assert(focused_validation(events.drop_last(), consumer) =~= seq![
                EventModel::<T, S>::PeerConnected(peer, role),
            ]);
            assert(events.last() == events[1]);
            assert(focused_validation(events, consumer) =~= connection_events::<T, S>(peer, role));
            assert(validation_consumers().contains(consumer));
            assert(consumer != Consumer::CollatorProtocol) by {
                let i = choose|i: int|
                    0 <= i < validation_consumers().len() && validation_consumers()[i] == consumer;
                assert(validation_consumers()[i] == consumer);
            }
        },
        PeerSet::Collation => {
            let events = connection_events::<CollationProtocol<T>, S>(peer, role);
            collation_dispatch_keeps_order(events, consumer);
            assert(events.drop_last() =~= seq![events[0]]);
            assert(events.drop_last().drop_last() =~= Seq::empty());
            assert(focused_collation(events.drop_last().drop_last()) =~= Seq::empty());
            assert(events.drop_last().last() == events[0]);
            assert(focused_collation(events.drop_last()) =~= seq![
                EventModel::<T, S>::PeerConnected(peer, role),
            ]);
            assert(events.last() == events[1]);
            assert(focused_collation(events) =~= connection_events::<T, S>(peer, role));
            assert(consumer == Consumer::CollatorProtocol) by {
                let i = choose|i: int|
                    0 <= i < collation_consumers().len() && collation_consumers()[i] == consumer;
                assert(collation_consumers()[i] == consumer);
            }
        },
    }
    assert(received_by(messages, consumer).len() == 2);
    assert(messages.len() > 0) by {
        if messages.len() == 0 {
            assert(received_by(messages, consumer) =~= Seq::empty());
        }
    }
    assert(effects_of(state, action) =~= seq![
        EffectModel::<T, S, R>::DiscoveryPeerConnected(peer),
        EffectModel::<T, S, R>::SendMessages(messages),
    ]);
}

/// Connecting a peer that has an entry on the peer-set is a no-op: the
/// state stays as it is and nothing is to be done.
pub proof fn reconnecting_is_a_no_op<T, S, R>(
    state: BridgeModel<S>,
    peer_set: PeerSet,
    peer: Seq<u8>,
    role: ObservedRole,
)
    requires
        has_peer(state.peers(peer_set), peer),
    ensures
        next_state(state, ActionModel::<T, S, R>::PeerConnected(peer_set, peer, role)) == state,
        effects_of(state, ActionModel::<T, S, R>::PeerConnected(peer_set, peer, role))
            == Seq::<EffectModel<T, S, R>>::empty(),
{
}

/// A peer stays connected on a peer-set over any actions among which none
/// disconnects it there.
pub proof fn connection_lasts_until_disconnect<T, S, R>(
    state: BridgeModel<S>,
    actions: Seq<ActionModel<T, S, R>>,
    peer_set: PeerSet,
    peer: Seq<u8>,
)
    requires
        state.wf(),
        has_peer(state.peers(peer_set), peer),
        forall|i: int|
            0 <= i < actions.len() ==> actions[i] != ActionModel::<T, S, R>::PeerDisconnected(
                peer_set,
                peer,
            ),
    ensures
        run(state, actions).wf(),
        has_peer(run(state, actions).peers(peer_set), peer),
    decreases actions.len(),
{
    if actions.len() > 0 {
        connection_lasts_until_disconnect(state, actions.drop_last(), peer_set, peer);
        let before = run(state, actions.drop_last());
        entries_stay_distinct(before, actions.last());
        entry_exists_while_connected(before, actions.last(), peer_set, peer);
    }
}

/// Connecting a peer a second time, whatever happened in between short
/// of its disconnection, changes nothing and asks for nothing.
pub proof fn second_connection_is_a_no_op<T, S, R>(
    state: BridgeModel<S>,
    between: Seq<ActionModel<T, S, R>>,
    peer_set: PeerSet,
    peer: Seq<u8>,
    first_role: ObservedRole,
    second_role: ObservedRole,
)
    requires
        state.wf(),
        forall|i: int|
            0 <= i < between.len() ==> between[i] != ActionModel::<T, S, R>::PeerDisconnected(
                peer_set,
                peer,
            ),
    ensures
        ({
            let connected = next_state(
                state,
                ActionModel::<T, S, R>::PeerConnected(peer_set, peer, first_role),
            );
            let later = run(connected, between);
            let again = ActionModel::<T, S, R>::PeerConnected(peer_set, peer, second_role);
            &&& next_state(later, again) == later
            &&& effects_of(later, again) == Seq::<EffectModel<T, S, R>>::empty()
        }),
{
    let first = ActionModel::<T, S, R>::PeerConnected(peer_set, peer, first_role);
    let connected = next_state(state, first);
    entries_stay_distinct(state, first);
    entry_exists_while_connected(state, first, peer_set, peer);
    connection_lasts_until_disconnect(connected, between, peer_set, peer);
    reconnecting_is_a_no_op::<T, S, R>(run(connected, between), peer_set, peer, second_role);
}

/// A view update whose finalized number is below the stored one is
/// rejected: it earns the penalty for a malformed view, the stored view
/// stays, and no event follows.
pub proof fn lowered_finalized_number_is_rejected<M, S>(
    peer: Seq<u8>,
    before: HandledModel<M, S>,
    announced: ViewModel,
)
    requires
        announced.finalized_number < before.stored.finalized_number,
    ensures
        handle_message(peer, before, WireMessageModel::ViewUpdate(announced)) == (HandledModel {
            penalties: before.penalties.push(malformed_view_cost()),
            ..before
        }),
{
}

/// A view update with a lowered finalized number, sent alone by a peer
/// that is connected on the validation peer-set, leaves the state as it is
/// and has one effect: the report of the peer for a malformed view.
pub proof fn lowered_finalized_number_is_penalized<T, S, R>(
    state: BridgeModel<S>,
    peer: Seq<u8>,
    announced: ViewModel,
)
    requires
        state.wf(),
        has_peer(state.validation_peers, peer),
        announced.finalized_number < stored_view(state.validation_peers, peer).finalized_number,
    ensures
        ({
            let action = ActionModel::<T, S, R>::PeerMessages(
                peer,
                seq![WireMessageModel::ViewUpdate(announced)],
                Seq::empty(),
            );
            &&& next_state(state, action) == state
            &&& effects_of(state, action) == seq![
                EffectModel::<T, S, R>::ReportPeer(peer, malformed_view_cost()),
            ]
        }),
{
    let entries = state.validation_peers;
    let stored = stored_view(entries, peer);
    let batch = seq![WireMessageModel::<ValidationProtocol<T>>::ViewUpdate(announced)];
    assert(batch.drop_last() =~= Seq::empty());
    let start = handle_messages::<ValidationProtocol<T>, S>(peer, stored, batch.drop_last());
    let handled = handle_messages::<ValidationProtocol<T>, S>(peer, stored, batch);
    assert(handled == handle_message(peer, start, batch.last()));
    assert(handled.penalties =~= seq![malformed_view_cost()]);
    assert(handled.events =~= Seq::empty());
    assert(with_view(entries, peer, stored) =~= entries);
    assert(reports::<T, S, R>(peer, handled.penalties) =~= seq![
        EffectModel::<T, S, R>::ReportPeer(peer, malformed_view_cost()),
    ]);
    let action = ActionModel::<T, S, R>::PeerMessages(peer, batch, Seq::empty());
    assert(effects_of(state, action) =~= seq![
        EffectModel::<T, S, R>::ReportPeer(peer, malformed_view_cost()),
    ]);
}

/// Whatever a peer without an entry sends on a peer-set, the batch earns
/// the penalty for an unconnected peer-set exactly once, produces no event
/// and leaves the entries as they are.
pub proof fn batch_of_unconnected_peer_is_dropped<M, S>(
    entries: PeerEntries,
    peer: Seq<u8>,
    messages: Seq<WireMessageModel<M>>,
)
    requires
        !has_peer(entries, peer),
    ensures
        batch_penalties::<M, S>(entries, peer, messages) == seq![unconnected_peerset_cost()],
        batch_events::<M, S>(entries, peer, messages) == Seq::<EventModel<M, S>>::empty(),
        batch_entries::<M, S>(entries, peer, messages) == entries,
{
}

/// A batch of validation messages, whatever it holds, from a peer that is
/// not connected on the validation peer-set leaves the state as it is and
/// has one effect: the report of the peer for an unconnected peer-set.
/// Nothing is delivered to any subsystem.
pub proof fn messages_of_unconnected_peer_are_penalized_once<T, S, R>(
    state: BridgeModel<S>,
    peer: Seq<u8>,
    messages: Seq<WireMessageModel<ValidationProtocol<T>>>,
)
    requires
        !has_peer(state.validation_peers, peer),
        messages.len() > 0,
    ensures
        ({
            let action = ActionModel::<T, S, R>::PeerMessages(peer, messages, Seq::empty());
            &&& next_state(state, action) == state
            &&& effects_of(state, action) == seq![
                EffectModel::<T, S, R>::ReportPeer(peer, unconnected_peerset_cost()),
            ]
        }),
{
    let action = ActionModel::<T, S, R>::PeerMessages(peer, messages, Seq::empty());
    assert(reports::<T, S, R>(peer, seq![unconnected_peerset_cost()]) =~= seq![
        EffectModel::<T, S, R>::ReportPeer(peer, unconnected_peerset_cost()),
    ]);
    assert(effects_of(state, action) =~= seq![
        EffectModel::<T, S, R>::ReportPeer(peer, unconnected_peerset_cost()),
    ]);
}

/// The finalization of a block changes the finalized number and nothing
/// else, and asks for nothing: no view is written to any peer.
pub proof fn finalization_alone_sends_nothing<T, S, R>(state: BridgeModel<S>, number: u32)
    ensures
        next_state(state, ActionModel::<T, S, R>::BlockFinalized(number)) == (BridgeModel {
            finalized_number: number,
            ..state
        }),
        effects_of(state, ActionModel::<T, S, R>::BlockFinalized(number)) == Seq::<
            EffectModel<T, S, R>,
        >::empty(),
{
}

/// A view holds the most recently activated heads, the most recent first,
/// and at most `MAX_VIEW_HEADS` of them: where more heads are live, the
/// older ones are left out.
pub proof fn view_holds_the_most_recent_heads(hashes: Seq<BlockHash>)
    ensures
        most_recent_heads(hashes).len() == if hashes.len() <= MAX_VIEW_HEADS {
            hashes.len()
        } else {
            MAX_VIEW_HEADS as nat
        },
        forall|i: int|
            0 <= i < most_recent_heads(hashes).len() ==> most_recent_heads(hashes)[i]
                == hashes[hashes.len() - 1 - i],
        hashes.no_duplicates() ==> forall|k: int|
            0 <= k < hashes.len() ==> (most_recent_heads(hashes).contains(#[trigger] hashes[k])
                <==> hashes.len() - k <= MAX_VIEW_HEADS),
{
    let heads = most_recent_heads(hashes);
    if hashes.no_duplicates() {
        assert forall|k: int| 0 <= k < hashes.len() implies (heads.contains(#[trigger] hashes[k])
            <==> hashes.len() - k <= MAX_VIEW_HEADS) by {
            if hashes.len() - k <= MAX_VIEW_HEADS {
                assert(heads[hashes.len() - 1 - k] == hashes[k]);
            }
            if heads.contains(hashes[k]) {
                let i = choose|i: int| 0 <= i < heads.len() && heads[i] == hashes[k];
                assert(hashes[hashes.len() - 1 - i] == hashes[k]);
            }
        }
    }
}

/// The list of connected peers names every connected peer, and each once.
pub proof fn every_peer_is_listed_once(entries: PeerEntries, peer: Seq<u8>)
    requires
        distinct_peers(entries),
    ensures
        connected_peers(entries).no_duplicates(),
        connected_peers(entries).contains(peer) == has_peer(entries, peer),
{
    let listed = connected_peers(entries);
    if has_peer(entries, peer) {
        assert(listed[peer_index(entries, peer)] == peer);
    }
    if listed.contains(peer) {
        let i = choose|i: int| 0 <= i < listed.len() && listed[i] == peer;
        assert(entries[i].0 == peer);
    }
}

/// When the set of active heads changes so that the heads of the view
/// change, the new view, with the finalized number of that moment, is
/// written to the connected peers of the validation peer-set and to those
/// of the collation peer-set, once for each peer, and the subsystems of
/// both peer-sets are told of the change.
pub proof fn changed_heads_are_announced<T, S, R>(
    state: BridgeModel<S>,
    update: ActiveLeavesModel<S>,
)
    requires
        state.wf(),
        view_changed(BridgeModel { live_heads: updated_heads(state.live_heads, update), ..state }),
    ensures
        ({
            let live_heads = updated_heads(state.live_heads, update);
            let view = constructed_view(live_heads, state.finalized_number);
            let our_view = OurViewModel {
                heads: live_heads,
                finalized_number: state.finalized_number,
            };
            &&& next_state(state, ActionModel::<T, S, R>::ActiveLeaves(update)).local_view == view
            &&& effects_of(state, ActionModel::<T, S, R>::ActiveLeaves(update))
                == validation_write::<T, S, R>(
                connected_peers(state.validation_peers),
                WireMessageModel::ViewUpdate(view),
            ) + collation_write::<T, S, R>(
                connected_peers(state.collation_peers),
                WireMessageModel::ViewUpdate(view),
            ) + seq![
                EffectModel::<T, S, R>::SendMessages(
                    validation_messages_for(EventModel::OurViewChange(our_view)),
                ),
                EffectModel::<T, S, R>::SendMessages(
                    collation_messages_for(EventModel::OurViewChange(our_view)),
                ),
            ]
            &&& connected_peers(state.validation_peers).no_duplicates()
            &&& connected_peers(state.collation_peers).no_duplicates()
        }),
{
    let live_heads = updated_heads(state.live_heads, update);
    let view = constructed_view(live_heads, state.finalized_number);
    let our_view = EventModel::<ValidationProtocol<T>, S>::OurViewChange(
        OurViewModel { heads: live_heads, finalized_number: state.finalized_number },
    );
    let our_collation_view = EventModel::<CollationProtocol<T>, S>::OurViewChange(
        OurViewModel { heads: live_heads, finalized_number: state.finalized_number },
    );
    every_peer_is_listed_once(state.validation_peers, Seq::empty());
    every_peer_is_listed_once(state.collation_peers, Seq::empty());
    assert(validation_messages_for(our_view).len() == 5);
    assert(collation_messages_for(our_collation_view).len() == 1);
    let writes = validation_write::<T, S, R>(
        connected_peers(state.validation_peers),
        WireMessageModel::ViewUpdate(view),
    ) + collation_write::<T, S, R>(
        connected_peers(state.collation_peers),
        WireMessageModel::ViewUpdate(view),
    );
    assert(effects_of(state, ActionModel::<T, S, R>::ActiveLeaves(update)) =~= writes + seq![
        EffectModel::<T, S, R>::SendMessages(validation_messages_for(our_view)),
        EffectModel::<T, S, R>::SendMessages(collation_messages_for(our_collation_view)),
    ]);
}

/// The finalized number never goes down: the finalization of a block
/// raises it, and no other action changes it.
pub proof fn finalized_number_never_goes_down<T, S, R>(
    state: BridgeModel<S>,
    action: ActionModel<T, S, R>,
)
    requires
        state.admits(action),
    ensures
        action is BlockFinalized ==> next_state(state, action).finalized_number
            > state.finalized_number,
        !(action is BlockFinalized) ==> next_state(state, action).finalized_number
            == state.finalized_number,
{
}

/// Handling messages never lowers the finalized number of the stored
/// view, and never stores a view with more than `MAX_VIEW_HEADS` heads.
pub proof fn stored_view_stays_sound<M, S>(
    peer: Seq<u8>,
    stored: ViewModel,
    messages: Seq<WireMessageModel<M>>,
)
    ensures
        handle_messages::<M, S>(peer, stored, messages).stored.finalized_number
            >= stored.finalized_number,
        stored.heads.len() <= MAX_VIEW_HEADS ==> handle_messages::<M, S>(
            peer,
            stored,
            messages,
        ).stored.heads.len() <= MAX_VIEW_HEADS,
    decreases messages.len(),
{
    if messages.len() > 0 {
        stored_view_stays_sound::<M, S>(peer, stored, messages.drop_last());
    }
}

/// Every view the bridge holds, its own and those of its peers, has at
/// most `MAX_VIEW_HEADS` heads.
pub open spec fn views_bounded<S>(state: BridgeModel<S>) -> bool {
    &&& state.local_view.heads.len() <= MAX_VIEW_HEADS
    &&& forall|i: int|
        0 <= i < state.validation_peers.len() ==> (#[trigger] state.validation_peers[i]).1.heads.len()
            <= MAX_VIEW_HEADS
    &&& forall|i: int|
        0 <= i < state.collation_peers.len() ==> (#[trigger] state.collation_peers[i]).1.heads.len()
            <= MAX_VIEW_HEADS
}

/// The entries of a peer-set hold bounded views after a batch of messages
/// if they did before.
proof fn lemma_batch_keeps_views_bounded<M, S>(
    entries: PeerEntries,
    peer: Seq<u8>,
    messages: Seq<WireMessageModel<M>>,
)
    requires
        distinct_peers(entries),
        forall|i: int| 0 <= i < entries.len() ==> (#[trigger] entries[i]).1.heads.len() <= MAX_VIEW_HEADS,
    ensures
        forall|i: int|
            0 <= i < batch_entries::<M, S>(entries, peer, messages).len() ==> (#[trigger] batch_entries::<
                M,
                S,
            >(entries, peer, messages)[i]).1.heads.len() <= MAX_VIEW_HEADS,
{
    if has_peer(entries, peer) {
        let at = peer_index(entries, peer);
        assert(entries[at].1.heads.len() <= MAX_VIEW_HEADS);
        stored_view_stays_sound::<M, S>(peer, stored_view(entries, peer), messages);
        let after = batch_entries::<M, S>(entries, peer, messages);
        assert forall|i: int| 0 <= i < after.len() implies (#[trigger] after[i]).1.heads.len()
            <= MAX_VIEW_HEADS by {
            if i != at {
                assert(after[i] == entries[i]);
            }
        }
    }
}

/// The bound on the heads of a view holds at startup, and every action
/// keeps it.
pub proof fn views_stay_bounded<T, S, R>(state: BridgeModel<S>, action: ActionModel<T, S, R>)
    requires
        state.wf(),
        views_bounded(state),
    ensures
        views_bounded(BridgeModel::<S>::initial()),
        views_bounded(next_state(state, action)),
{
    let next = next_state(state, action);
    match action {
        ActionModel::PeerConnected(peer_set, peer, _) => {
            let before = state.peers(peer_set);
            let after = next.peers(peer_set);
            assert forall|i: int| 0 <= i < after.len() implies (#[trigger] after[i]).1.heads.len()
                <= MAX_VIEW_HEADS by {
                if i < before.len() {
                    assert(after[i] == before[i]);
                }
            }
        },
        ActionModel::PeerDisconnected(peer_set, peer) => {
            let before = state.peers(peer_set);
            let after = next.peers(peer_set);
            if has_peer(before, peer) {
                let at = peer_index(before, peer);
                assert forall|i: int| 0 <= i < after.len() implies (#[trigger] after[i]).1.heads.len()
                    <= MAX_VIEW_HEADS by {
                    if i < at {
                        assert(after[i] == before[i]);
                    } else {
                        assert(after[i] == before[i + 1]);
                    }
                }
            }
        },
        ActionModel::PeerMessages(peer, validation, collation) => {
            lemma_batch_keeps_views_bounded::<ValidationProtocol<T>, S>(
                state.validation_peers,
                peer,
                validation,
            );
            lemma_batch_keeps_views_bounded::<CollationProtocol<T>, S>(
                state.collation_peers,
                peer,
                collation,
            );
        },
        _ => {},
    }
}

/// The two peer-sets are independent: a connection, a disconnection or a
/// batch of messages on one of them leaves the entries of the other as
/// they are.
pub proof fn peer_sets_are_independent<T, S, R>(
    state: BridgeModel<S>,
    peer_set: PeerSet,
    peer: Seq<u8>,
    role: ObservedRole,
    validation: Seq<WireMessageModel<ValidationProtocol<T>>>,
    collation: Seq<WireMessageModel<CollationProtocol<T>>>,
)
    ensures
        ({
            let other = match peer_set {
                PeerSet::Validation => PeerSet::Collation,
                PeerSet::Collation => PeerSet::Validation,
            };
            &&& next_state(
                state,
                ActionModel::<T, S, R>::PeerConnected(peer_set, peer, role),
            ).peers(other) == state.peers(other)
            &&& next_state(state, ActionModel::<T, S, R>::PeerDisconnected(peer_set, peer)).peers(
                other,
            ) == state.peers(other)
            &&& next_state(
                state,
                ActionModel::<T, S, R>::PeerMessages(peer, validation, Seq::empty()),
            ).collation_peers == state.collation_peers
            &&& next_state(
                state,
                ActionModel::<T, S, R>::PeerMessages(peer, Seq::empty(), collation),
            ).validation_peers == state.validation_peers
        }),
{
}

/// Deactivation removes the deactivated heads and nothing else: a head is
/// live afterwards exactly if it was live and is not deactivated, and no
/// more heads are live than before.
pub proof fn deactivated_heads_are_removed<S>(
    live_heads: Seq<(BlockHash, Arc<S>)>,
    deactivated: Seq<BlockHash>,
    head: (BlockHash, Arc<S>),
)
    ensures
        retained_heads(live_heads, deactivated).contains(head) == (live_heads.contains(head)
            && !deactivated.contains(head.0)),
        retained_heads(live_heads, deactivated).len() <= live_heads.len(),
    decreases live_heads.len(),
{
    let kept = retained_heads(live_heads, deactivated);
    if live_heads.len() > 0 {
        let earlier = live_heads.drop_last();
        let kept_earlier = retained_heads(earlier, deactivated);
        deactivated_heads_are_removed(earlier, deactivated, head);
        if kept.contains(head) {
            let i = choose|i: int| 0 <= i < kept.len() && kept[i] == head;
            if i < kept_earlier.len() {
                assert(kept_earlier[i] == head);
                let j = choose|j: int| 0 <= j < earlier.len() && earlier[j] == head;
                assert(live_heads[j] == head);
            } else {
                assert(live_heads[live_heads.len() - 1] == head);
            }
        }
        if live_heads.contains(head) && !deactivated.contains(head.0) {
            let j = choose|j: int| 0 <= j < live_heads.len() && live_heads[j] == head;
            if j < earlier.len() {
                assert(earlier[j] == head);
                let i = choose|i: int| 0 <= i < kept_earlier.len() && kept_earlier[i] == head;
                assert(kept[i] == head);
            } else {
                assert(kept[kept.len() - 1] == head);
            }
        }
    }
}

} // verus!
