//! The message dispatcher: fans the events of a peer-set out to the
//! subsystems that consume it, each event narrowed to what its consumer
//! understands.

use crate::event::{EventModel, NetworkBridgeEvent};
use crate::primitives::views;
use vstd::prelude::*;
use vstd::view::View as _;

verus! {

/// A message of one of the protocols spoken on the validation peer-set.
///
/// `T` is the type of the payloads; the bridge routes them and never looks
/// inside.
#[derive(Debug, PartialEq, Eq)]
pub enum ValidationProtocol<T> {
    /// A message of availability distribution.
    AvailabilityDistribution(T),
    /// A message of bitfield distribution.
    BitfieldDistribution(T),
    /// A message of PoV distribution.
    PoVDistribution(T),
    /// A message of statement distribution.
    StatementDistribution(T),
    /// A message of approval distribution.
    ApprovalDistribution(T),
}

/// A message of the protocol spoken on the collation peer-set.
#[derive(Debug, PartialEq, Eq)]
pub enum CollationProtocol<T> {
    /// A message of the collator protocol.
    CollatorProtocol(T),
}

/// A subsystem that consumes the events of a peer-set.
#[derive(Clone, Copy, Debug, PartialEq, Eq, Structural, Hash)]
pub enum Consumer {
    /// Availability distribution, on the validation peer-set.
    AvailabilityDistribution,
    /// Bitfield distribution, on the validation peer-set.
    BitfieldDistribution,
    /// PoV distribution, on the validation peer-set.
    PoVDistribution,
    /// Statement distribution, on the validation peer-set.
    StatementDistribution,
    /// Approval distribution, on the validation peer-set.
    ApprovalDistribution,
    /// The collator protocol, on the collation peer-set.
    CollatorProtocol,
}

/// The mathematical content of an [`AllMessages`]: an event and the
/// consumer it goes to.
pub struct RoutedModel<T, S> {
    /// The subsystem the event is for.
    pub consumer: Consumer,
    /// The event, narrowed to the consumer's protocol.
    pub event: EventModel<T, S>,
}

/// An event on its way to the one subsystem named by the variant.
#[derive(Debug, PartialEq, Eq)]
pub enum AllMessages<T, S> {
    /// For availability distribution.
    AvailabilityDistribution(NetworkBridgeEvent<T, S>),
    /// For bitfield distribution.
    BitfieldDistribution(NetworkBridgeEvent<T, S>),
    /// For PoV distribution.
    PoVDistribution(NetworkBridgeEvent<T, S>),
    /// For statement distribution.
    StatementDistribution(NetworkBridgeEvent<T, S>),
    /// For approval distribution.
    ApprovalDistribution(NetworkBridgeEvent<T, S>),
    /// For the collator protocol.
    CollatorProtocol(NetworkBridgeEvent<T, S>),
}

impl<T, S> vstd::view::View for AllMessages<T, S> {
    type V = RoutedModel<T, S>;

    open spec fn view(&self) -> RoutedModel<T, S> {
        match *self {
            AllMessages::AvailabilityDistribution(event) => RoutedModel {
                consumer: Consumer::AvailabilityDistribution,
                event: event@,
            },
            AllMessages::BitfieldDistribution(event) => RoutedModel {
                consumer: Consumer::BitfieldDistribution,
                event: event@,
            },
            AllMessages::PoVDistribution(event) => RoutedModel {
                consumer: Consumer::PoVDistribution,
                event: event@,
            },
            AllMessages::StatementDistribution(event) => RoutedModel {
                consumer: Consumer::StatementDistribution,
                event: event@,
            },
            AllMessages::ApprovalDistribution(event) => RoutedModel {
                consumer: Consumer::ApprovalDistribution,
                event: event@,
            },
            AllMessages::CollatorProtocol(event) => RoutedModel {
                consumer: Consumer::CollatorProtocol,
                event: event@,
            },
        }
    }
}

/// The consumers of the validation peer-set, in the order in which an event
/// is offered to them.
pub open spec fn validation_consumers() -> Seq<Consumer> {
    seq![
        Consumer::AvailabilityDistribution,
        Consumer::BitfieldDistribution,
        Consumer::PoVDistribution,
        Consumer::StatementDistribution,
        Consumer::ApprovalDistribution,
    ]
}

/// The consumers of the collation peer-set.
pub open spec fn collation_consumers() -> Seq<Consumer> {
    seq![Consumer::CollatorProtocol]
}

/// The subsystem whose protocol `message` belongs to.
pub open spec fn validation_consumer_of<T>(message: ValidationProtocol<T>) -> Consumer {
    match message {
        ValidationProtocol::AvailabilityDistribution(_) => Consumer::AvailabilityDistribution,
        ValidationProtocol::BitfieldDistribution(_) => Consumer::BitfieldDistribution,
        ValidationProtocol::PoVDistribution(_) => Consumer::PoVDistribution,
        ValidationProtocol::StatementDistribution(_) => Consumer::StatementDistribution,
        ValidationProtocol::ApprovalDistribution(_) => Consumer::ApprovalDistribution,
    }
}

/// The payload of `message`.
pub open spec fn validation_payload_of<T>(message: ValidationProtocol<T>) -> T {
    match message {
        ValidationProtocol::AvailabilityDistribution(payload) => payload,
        ValidationProtocol::BitfieldDistribution(payload) => payload,
        ValidationProtocol::PoVDistribution(payload) => payload,
        ValidationProtocol::StatementDistribution(payload) => payload,
        ValidationProtocol::ApprovalDistribution(payload) => payload,
    }
}

/// An event that carries no protocol message, as an event of another
/// message type; `None` for a peer message.
pub open spec fn generic_event<M, T, S>(event: EventModel<M, S>) -> Option<EventModel<T, S>> {
    match event {
        EventModel::PeerConnected(peer, role) => Some(EventModel::PeerConnected(peer, role)),
        EventModel::PeerDisconnected(peer) => Some(EventModel::PeerDisconnected(peer)),
        EventModel::PeerMessage(_, _) => None,
        EventModel::PeerViewChange(peer, view) => Some(EventModel::PeerViewChange(peer, view)),
        EventModel::OurViewChange(our_view) => Some(EventModel::OurViewChange(our_view)),
    }
}

/// The event of the validation peer-set narrowed to what `consumer`
/// understands: a peer message only for the consumer of its protocol, with
/// its payload; any other event for every consumer, as it is.
pub open spec fn focus_validation<T, S>(
    event: EventModel<ValidationProtocol<T>, S>,
    consumer: Consumer,
) -> Option<EventModel<T, S>> {
    match event {
        EventModel::PeerMessage(peer, message) => if validation_consumer_of(message) == consumer {
            Some(EventModel::PeerMessage(peer, validation_payload_of(message)))
        } else {
            None
        },
        _ => generic_event(event),
    }
}

/// The event of the collation peer-set narrowed to what the collator
/// protocol understands.
pub open spec fn focus_collation<T, S>(event: EventModel<CollationProtocol<T>, S>) -> Option<
    EventModel<T, S>,
> {
    match event {
        EventModel::PeerMessage(peer, message) => match message {
            CollationProtocol::CollatorProtocol(payload) => Some(
                EventModel::PeerMessage(peer, payload),
            ),
        },
        _ => generic_event(event),
    }
}

/// The message for `consumer`, if the narrowing gave an event.
pub open spec fn routed_to<T, S>(consumer: Consumer, focused: Option<EventModel<T, S>>) -> Seq<
    RoutedModel<T, S>,
> {
    match focused {
        Some(event) => seq![RoutedModel { consumer, event }],
        None => Seq::empty(),
    }
}

/// The messages one event of the validation peer-set gives rise to: one for
/// each consumer to which the event applies, in the consumers' order.
pub open spec fn validation_messages_for<T, S>(
    event: EventModel<ValidationProtocol<T>, S>,
) -> Seq<RoutedModel<T, S>> {
    routed_to(
        Consumer::AvailabilityDistribution,
        focus_validation(event, Consumer::AvailabilityDistribution),
    ) + routed_to(
        Consumer::BitfieldDistribution,
        focus_validation(event, Consumer::BitfieldDistribution),
    ) + routed_to(Consumer::PoVDistribution, focus_validation(event, Consumer::PoVDistribution))
        + routed_to(
        Consumer::StatementDistribution,
        focus_validation(event, Consumer::StatementDistribution),
    ) + routed_to(
        Consumer::ApprovalDistribution,
        focus_validation(event, Consumer::ApprovalDistribution),
    )
}

/// The messages one event of the collation peer-set gives rise to.
pub open spec fn collation_messages_for<T, S>(event: EventModel<CollationProtocol<T>, S>) -> Seq<
    RoutedModel<T, S>,
> {
    routed_to(Consumer::CollatorProtocol, focus_collation(event))
}

/// The messages a batch of events of the validation peer-set gives rise to:
/// those of the first event, then those of the second, and so on.
pub open spec fn validation_messages<T, S>(
    events: Seq<EventModel<ValidationProtocol<T>, S>>,
) -> Seq<RoutedModel<T, S>>
    decreases events.len(),
{
    if events.len() == 0 {
        Seq::empty()
    } else {
        validation_messages(events.drop_last()) + validation_messages_for(events.last())
    }
}

/// The messages a batch of events of the collation peer-set gives rise to.
pub open spec fn collation_messages<T, S>(events: Seq<EventModel<CollationProtocol<T>, S>>) -> Seq<
    RoutedModel<T, S>,
>
    decreases events.len(),
{
    if events.len() == 0 {
        Seq::empty()
    } else {
        collation_messages(events.drop_last()) + collation_messages_for(events.last())
    }
}

/// The events that `consumer` receives from `messages`, in order.
pub open spec fn received_by<T, S>(messages: Seq<RoutedModel<T, S>>, consumer: Consumer) -> Seq<
    EventModel<T, S>,
>
    decreases messages.len(),
{
    if messages.len() == 0 {
        Seq::empty()
    } else if messages.last().consumer == consumer {
        received_by(messages.drop_last(), consumer).push(messages.last().event)
    } else {
        received_by(messages.drop_last(), consumer)
    }
}

/// A copy of an event that carries no protocol message, as an event of
/// another message type.
fn copy_generic<M, T, S>(event: &NetworkBridgeEvent<M, S>) -> (copy: Option<NetworkBridgeEvent<T, S>>)
    ensures
        match copy {
            Some(copy) => generic_event::<M, T, S>(event@) == Some(copy@),
            None => generic_event::<M, T, S>(event@) is None,
        },
{
    match event {
        NetworkBridgeEvent::PeerConnected(peer, role) => Some(
            NetworkBridgeEvent::PeerConnected(peer.clone(), *role),
        ),
        NetworkBridgeEvent::PeerDisconnected(peer) => Some(
            NetworkBridgeEvent::PeerDisconnected(peer.clone()),
        ),
        NetworkBridgeEvent::PeerMessage(_, _) => None,
        NetworkBridgeEvent::PeerViewChange(peer, view) => Some(
            NetworkBridgeEvent::PeerViewChange(peer.clone(), view.clone()),
        ),
        NetworkBridgeEvent::OurViewChange(our_view) => Some(
            NetworkBridgeEvent::OurViewChange(our_view.clone()),
        ),
    }
}

/// The messages that carry `event` to the subsystems of the validation
/// peer-set: a peer message goes to the one subsystem of its protocol, any
/// other event to all five, in their fixed order.
pub fn dispatch_validation_event_to_all<T, S>(
    event: NetworkBridgeEvent<ValidationProtocol<T>, S>,
) -> (messages: Vec<AllMessages<T, S>>)
    ensures
        views(messages@) == validation_messages_for(event@),
{
    let mut messages: Vec<AllMessages<T, S>> = Vec::new();
    match event {
        NetworkBridgeEvent::PeerMessage(peer, message) => {
            let routed = match message {
                ValidationProtocol::AvailabilityDistribution(payload) => {
                    AllMessages::AvailabilityDistribution(
                        NetworkBridgeEvent::PeerMessage(peer, payload),
                    )
                },
                ValidationProtocol::BitfieldDistribution(payload) => {
                    AllMessages::BitfieldDistribution(
                        NetworkBridgeEvent::PeerMessage(peer, payload),
                    )
                },
                ValidationProtocol::PoVDistribution(payload) => {
                    AllMessages::PoVDistribution(NetworkBridgeEvent::PeerMessage(peer, payload))
                },
                ValidationProtocol::StatementDistribution(payload) => {
                    AllMessages::StatementDistribution(
                        NetworkBridgeEvent::PeerMessage(peer, payload),
                    )
                },
                ValidationProtocol::ApprovalDistribution(payload) => {
                    AllMessages::ApprovalDistribution(
                        NetworkBridgeEvent::PeerMessage(peer, payload),
                    )
                },
            };
            messages.push(routed);
        },
        other => {
            let first: Option<NetworkBridgeEvent<T, S>> = copy_generic(&other);
            let second: Option<NetworkBridgeEvent<T, S>> = copy_generic(&other);
            let third: Option<NetworkBridgeEvent<T, S>> = copy_generic(&other);
            let fourth: Option<NetworkBridgeEvent<T, S>> = copy_generic(&other);
            let fifth: Option<NetworkBridgeEvent<T, S>> = copy_generic(&other);
            match (first, second, third, fourth, fifth) {
                (Some(first), Some(second), Some(third), Some(fourth), Some(fifth)) => {
                    messages.push(AllMessages::AvailabilityDistribution(first));
                    messages.push(AllMessages::BitfieldDistribution(second));
                    messages.push(AllMessages::PoVDistribution(third));
                    messages.push(AllMessages::StatementDistribution(fourth));
                    messages.push(AllMessages::ApprovalDistribution(fifth));
                },
                _ => {},
            }
        },
    }
    assert(views(messages@) =~= validation_messages_for(event@));
    messages
}

/// The message that carries `event` to the subsystem of the collation
/// peer-set.
pub fn dispatch_collation_event_to_all<T, S>(
    event: NetworkBridgeEvent<CollationProtocol<T>, S>,
) -> (messages: Vec<AllMessages<T, S>>)
    ensures
        views(messages@) == collation_messages_for(event@),
{
    let mut messages: Vec<AllMessages<T, S>> = Vec::new();
    match event {
        NetworkBridgeEvent::PeerMessage(peer, message) => {
            match message {
                CollationProtocol::CollatorProtocol(payload) => {
                    messages.push(
                        AllMessages::CollatorProtocol(
                            NetworkBridgeEvent::PeerMessage(peer, payload),
                        ),
                    );
                },
            }
        },
        other => {
            let copy: Option<NetworkBridgeEvent<T, S>> = copy_generic(&other);
            match copy {
                Some(copy) => {
                    messages.push(AllMessages::CollatorProtocol(copy));
                },
                None => {},
            }
        },
    }
    assert(views(messages@) =~= collation_messages_for(event@));
    messages
}

/// The messages that carry a batch of events to the subsystems of the
/// validation peer-set: the events in their order, and for each event the
/// subsystems in theirs.
pub fn dispatch_validation_events_to_all<T, S>(
    events: Vec<NetworkBridgeEvent<ValidationProtocol<T>, S>>,
) -> (messages: Vec<AllMessages<T, S>>)
    ensures
        views(messages@) == validation_messages(views(events@)),
{
    let mut messages: Vec<AllMessages<T, S>> = Vec::new();
    let ghost all = views(events@);
    assert(all.take(0) =~= Seq::empty());
    assert(views(messages@) =~= Seq::empty());
    for event in it: events.into_iter()
        invariant
            it.seq() == events@,
            all == views(events@),
            views(messages@) == validation_messages(all.take(it.index() as int)),
    {
        let ghost done = it.index() as int;
        let ghost before = messages@;
        assert(all.take(done + 1).drop_last() =~= all.take(done));
        assert(all.take(done + 1).last() == event@);
        let mut more = dispatch_validation_event_to_all(event);
        let ghost added = more@;
        messages.append(&mut more);
        assert(views(messages@) =~= views(before) + views(added));
    }
    assert(all.take(all.len() as int) =~= all);
    messages
}

/// The messages that carry a batch of events to the subsystem of the
/// collation peer-set, the events in their order.
pub fn dispatch_collation_events_to_all<T, S>(
    events: Vec<NetworkBridgeEvent<CollationProtocol<T>, S>>,
) -> (messages: Vec<AllMessages<T, S>>)
    ensures
        views(messages@) == collation_messages(views(events@)),
{
    let mut messages: Vec<AllMessages<T, S>> = Vec::new();
    let ghost all = views(events@);
    assert(all.take(0) =~= Seq::empty());
    assert(views(messages@) =~= Seq::empty());
    for event in it: events.into_iter()
        invariant
            it.seq() == events@,
            all == views(events@),
            views(messages@) == collation_messages(all.take(it.index() as int)),
    {
        let ghost done = it.index() as int;
        let ghost before = messages@;
        assert(all.take(done + 1).drop_last() =~= all.take(done));
        assert(all.take(done + 1).last() == event@);
        let mut more = dispatch_collation_event_to_all(event);
        let ghost added = more@;
        messages.append(&mut more);
        assert(views(messages@) =~= views(before) + views(added));
    }
    assert(all.take(all.len() as int) =~= all);
    messages
}

} // verus!
