//! The message dispatcher.

use network_bridge::dispatch::{
    dispatch_collation_event_to_all, dispatch_collation_events_to_all,
    dispatch_validation_event_to_all, dispatch_validation_events_to_all, AllMessages,
    CollationProtocol, ValidationProtocol,
};
use network_bridge::event::NetworkBridgeEvent;
use network_bridge::primitives::{BlockHash, ObservedRole, PeerId};
use network_bridge::view::{OurView, View};
use std::sync::Arc;

type Event = NetworkBridgeEvent<&'static str, u8>;

fn peer(n: u8) -> PeerId {
    PeerId::from_bytes(vec![n, n])
}

fn to_all_five(event: impl Fn() -> Event) -> Vec<AllMessages<&'static str, u8>> {
    vec![
        AllMessages::AvailabilityDistribution(event()),
        AllMessages::BitfieldDistribution(event()),
        AllMessages::PoVDistribution(event()),
        AllMessages::StatementDistribution(event()),
        AllMessages::ApprovalDistribution(event()),
    ]
}

#[test]
fn peer_message_reaches_only_the_subsystem_of_its_protocol() {
    let sent = |message| NetworkBridgeEvent::<ValidationProtocol<&'static str>, u8>::PeerMessage(peer(1), message);
    assert_eq!(
        dispatch_validation_event_to_all(sent(ValidationProtocol::AvailabilityDistribution("a"))),
        vec![AllMessages::AvailabilityDistribution(NetworkBridgeEvent::PeerMessage(peer(1), "a"))]
    );
    assert_eq!(
        dispatch_validation_event_to_all(sent(ValidationProtocol::BitfieldDistribution("b"))),
        vec![AllMessages::BitfieldDistribution(NetworkBridgeEvent::PeerMessage(peer(1), "b"))]
    );
    assert_eq!(
        dispatch_validation_event_to_all(sent(ValidationProtocol::PoVDistribution("p"))),
        vec![AllMessages::PoVDistribution(NetworkBridgeEvent::PeerMessage(peer(1), "p"))]
    );
    assert_eq!(
        dispatch_validation_event_to_all(sent(ValidationProtocol::StatementDistribution("s"))),
        vec![AllMessages::StatementDistribution(NetworkBridgeEvent::PeerMessage(peer(1), "s"))]
    );
    assert_eq!(
        dispatch_validation_event_to_all(sent(ValidationProtocol::ApprovalDistribution("v"))),
        vec![AllMessages::ApprovalDistribution(NetworkBridgeEvent::PeerMessage(peer(1), "v"))]
    );
}

#[test]
fn generic_events_reach_all_five_validation_subsystems_in_order() {
    assert_eq!(
        dispatch_validation_event_to_all(NetworkBridgeEvent::PeerConnected(
            peer(1),
            ObservedRole::Authority
        )),
        to_all_five(|| NetworkBridgeEvent::PeerConnected(peer(1), ObservedRole::Authority))
    );
    assert_eq!(
        dispatch_validation_event_to_all(NetworkBridgeEvent::PeerDisconnected(peer(2))),
        to_all_five(|| NetworkBridgeEvent::PeerDisconnected(peer(2)))
    );
    let view = || View::new(vec![BlockHash::repeat_byte(3)], 8);
    assert_eq!(
        dispatch_validation_event_to_all(NetworkBridgeEvent::PeerViewChange(peer(3), view())),
        to_all_five(|| NetworkBridgeEvent::PeerViewChange(peer(3), view()))
    );
    let span = Arc::new(9u8);
    let our_view = || OurView::new(vec![(BlockHash::repeat_byte(4), span.clone())], 2);
    assert_eq!(
        dispatch_validation_event_to_all(NetworkBridgeEvent::OurViewChange(our_view())),
        to_all_five(|| NetworkBridgeEvent::OurViewChange(our_view()))
    );
}

#[test]
fn collation_events_reach_the_collator_protocol() {
    assert_eq!(
        dispatch_collation_event_to_all::<&'static str, u8>(NetworkBridgeEvent::PeerMessage(
            peer(1),
            CollationProtocol::CollatorProtocol("c")
        )),
        vec![AllMessages::CollatorProtocol(NetworkBridgeEvent::PeerMessage(peer(1), "c"))]
    );
    assert_eq!(
        dispatch_collation_event_to_all::<&'static str, u8>(NetworkBridgeEvent::PeerDisconnected(
            peer(1)
        )),
        vec![AllMessages::CollatorProtocol(NetworkBridgeEvent::PeerDisconnected(peer(1)))]
    );
}

#[test]
fn batch_keeps_event_order_then_subsystem_order() {
    let events = vec![
        NetworkBridgeEvent::PeerMessage(peer(1), ValidationProtocol::StatementDistribution("s")),
        NetworkBridgeEvent::PeerDisconnected(peer(1)),
        NetworkBridgeEvent::PeerMessage(peer(2), ValidationProtocol::AvailabilityDistribution("a")),
    ];
    let mut expected: Vec<AllMessages<&'static str, u8>> =
        vec![AllMessages::StatementDistribution(NetworkBridgeEvent::PeerMessage(peer(1), "s"))];
    expected.extend(to_all_five(|| NetworkBridgeEvent::PeerDisconnected(peer(1))));
    expected.push(AllMessages::AvailabilityDistribution(NetworkBridgeEvent::PeerMessage(
        peer(2),
        "a",
    )));
    assert_eq!(dispatch_validation_events_to_all(events), expected);
    assert_eq!(
        dispatch_validation_events_to_all::<&'static str, u8>(Vec::new()),
        Vec::<AllMessages<&'static str, u8>>::new()
    );
}

#[test]
fn collation_batch_keeps_event_order() {
    let events = vec![
        NetworkBridgeEvent::PeerConnected(peer(1), ObservedRole::Light),
        NetworkBridgeEvent::PeerMessage(peer(1), CollationProtocol::CollatorProtocol("c")),
    ];
    let expected: Vec<AllMessages<&'static str, u8>> = vec![
        AllMessages::CollatorProtocol(NetworkBridgeEvent::PeerConnected(
            peer(1),
            ObservedRole::Light,
        )),
        AllMessages::CollatorProtocol(NetworkBridgeEvent::PeerMessage(peer(1), "c")),
    ];
    assert_eq!(dispatch_collation_events_to_all(events), expected);
}

#[test]
fn dispatched_view_change_shares_the_spans_of_the_live_heads() {
    let span = Arc::new(7u8);
    let our_view = OurView::new(vec![(BlockHash::repeat_byte(1), span.clone())], 0);
    let messages = dispatch_validation_event_to_all::<&'static str, u8>(
        NetworkBridgeEvent::OurViewChange(our_view),
    );
    assert_eq!(messages.len(), 5);
    for message in &messages {
        let event = match message {
            AllMessages::AvailabilityDistribution(event)
            | AllMessages::BitfieldDistribution(event)
            | AllMessages::PoVDistribution(event)
            | AllMessages::StatementDistribution(event)
            | AllMessages::ApprovalDistribution(event)
            | AllMessages::CollatorProtocol(event) => event,
        };
        match event {
            NetworkBridgeEvent::OurViewChange(our_view) => {
                assert!(Arc::ptr_eq(&our_view.heads[0].1, &span));
            }
            other => panic!("unexpected event: {:?}", other),
        }
    }
    // One handle is ours, and each of the five messages holds another.
    assert_eq!(Arc::strong_count(&span), 6);
}
