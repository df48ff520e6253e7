//! The message handler on one peer-set.

use network_bridge::dispatch::ValidationProtocol;
use network_bridge::event::NetworkBridgeEvent;
use network_bridge::handler::{handle_peer_messages, judge, Handled, ViewVerdict};
use network_bridge::peers::PeerMap;
use network_bridge::primitives::{BlockHash, PeerId};
use network_bridge::reputation::{
    empty_view_cost, malformed_view_cost, unconnected_peerset_cost,
};
use network_bridge::view::View;
use network_bridge::wire::WireMessage;

type Message = ValidationProtocol<u32>;

fn peer(n: u8) -> PeerId {
    PeerId::from_bytes(vec![n; 6])
}

fn view(heads: &[u8], finalized_number: u32) -> View {
    View::new(heads.iter().map(|b| BlockHash::repeat_byte(*b)).collect(), finalized_number)
}

fn connected(peers: &[PeerId]) -> PeerMap {
    let mut map = PeerMap::new();
    for peer in peers {
        assert!(map.insert(peer.clone()));
    }
    map
}

#[test]
fn batch_from_unconnected_peer_earns_one_penalty_and_no_event() {
    let mut peers = connected(&[peer(2)]);
    let batch: Vec<WireMessage<Message>> = vec![
        WireMessage::ProtocolMessage(ValidationProtocol::PoVDistribution(1)),
        WireMessage::ViewUpdate(view(&[1], 3)),
        WireMessage::ViewUpdate(view(&[], 0)),
    ];
    let handled: Handled<Message, ()> = handle_peer_messages(peer(1), &mut peers, batch);
    assert_eq!(handled.penalties, vec![unconnected_peerset_cost()]);
    assert!(handled.events.is_empty());
    assert_eq!(peers.len(), 1);
    assert_eq!(peers.view_of(&peer(2)), Some(View::default()));
    assert_eq!(peers.view_of(&peer(1)), None);
}

#[test]
fn protocol_messages_become_events_in_order() {
    let mut peers = connected(&[peer(1)]);
    let batch: Vec<WireMessage<Message>> = vec![
        WireMessage::ProtocolMessage(ValidationProtocol::PoVDistribution(1)),
        WireMessage::ProtocolMessage(ValidationProtocol::BitfieldDistribution(2)),
    ];
    let handled: Handled<Message, ()> = handle_peer_messages(peer(1), &mut peers, batch);
    assert!(handled.penalties.is_empty());
    assert_eq!(
        handled.events,
        vec![
            NetworkBridgeEvent::PeerMessage(peer(1), ValidationProtocol::PoVDistribution(1)),
            NetworkBridgeEvent::PeerMessage(peer(1), ValidationProtocol::BitfieldDistribution(2)),
        ]
    );
    assert_eq!(peers.view_of(&peer(1)), Some(View::default()));
}

#[test]
fn accepted_view_is_stored_and_reported() {
    let mut peers = connected(&[peer(1), peer(2)]);
    let batch: Vec<WireMessage<Message>> = vec![WireMessage::ViewUpdate(view(&[7, 8], 4))];
    let handled: Handled<Message, ()> = handle_peer_messages(peer(2), &mut peers, batch);
    assert!(handled.penalties.is_empty());
    assert_eq!(handled.events, vec![NetworkBridgeEvent::PeerViewChange(peer(2), view(&[7, 8], 4))]);
    assert_eq!(peers.view_of(&peer(2)), Some(view(&[7, 8], 4)));
    assert_eq!(peers.view_of(&peer(1)), Some(View::default()));
    let order: Vec<PeerId> = peers.peers();
    assert_eq!(order, vec![peer(1), peer(2)]);
}

#[test]
fn lowered_finalized_number_is_penalized_and_changes_nothing() {
    let mut peers = connected(&[peer(1)]);
    assert!(peers.set_view(&peer(1), view(&[1], 10)));
    let batch: Vec<WireMessage<Message>> = vec![WireMessage::ViewUpdate(view(&[2], 9))];
    let handled: Handled<Message, ()> = handle_peer_messages(peer(1), &mut peers, batch);
    assert_eq!(handled.penalties, vec![malformed_view_cost()]);
    assert!(handled.events.is_empty());
    assert_eq!(peers.view_of(&peer(1)), Some(view(&[1], 10)));
}

#[test]
fn view_with_six_heads_is_malformed_and_with_five_accepted() {
    let mut peers = connected(&[peer(1)]);
    let batch: Vec<WireMessage<Message>> = vec![
        WireMessage::ViewUpdate(view(&[1, 2, 3, 4, 5, 6], 0)),
        WireMessage::ViewUpdate(view(&[1, 2, 3, 4, 5], 0)),
    ];
    let handled: Handled<Message, ()> = handle_peer_messages(peer(1), &mut peers, batch);
    assert_eq!(handled.penalties, vec![malformed_view_cost()]);
    assert_eq!(
        handled.events,
        vec![NetworkBridgeEvent::PeerViewChange(peer(1), view(&[1, 2, 3, 4, 5], 0))]
    );
    assert_eq!(peers.view_of(&peer(1)), Some(view(&[1, 2, 3, 4, 5], 0)));
}

#[test]
fn empty_view_is_penalized_as_empty() {
    let mut peers = connected(&[peer(1)]);
    let batch: Vec<WireMessage<Message>> = vec![WireMessage::ViewUpdate(view(&[], 3))];
    let handled: Handled<Message, ()> = handle_peer_messages(peer(1), &mut peers, batch);
    assert_eq!(handled.penalties, vec![empty_view_cost()]);
    assert!(handled.events.is_empty());
    assert_eq!(peers.view_of(&peer(1)), Some(View::default()));
}

#[test]
fn empty_view_with_lowered_finalized_number_is_malformed() {
    let mut peers = connected(&[peer(1)]);
    assert!(peers.set_view(&peer(1), view(&[1], 2)));
    let batch: Vec<WireMessage<Message>> = vec![WireMessage::ViewUpdate(view(&[], 1))];
    let handled: Handled<Message, ()> = handle_peer_messages(peer(1), &mut peers, batch);
    assert_eq!(handled.penalties, vec![malformed_view_cost()]);
}

#[test]
fn repeated_view_is_dropped_in_silence() {
    let mut peers = connected(&[peer(1)]);
    let batch: Vec<WireMessage<Message>> = vec![
        WireMessage::ViewUpdate(view(&[1], 2)),
        WireMessage::ViewUpdate(view(&[1], 2)),
        WireMessage::ViewUpdate(view(&[1], 3)),
    ];
    let handled: Handled<Message, ()> = handle_peer_messages(peer(1), &mut peers, batch);
    assert!(handled.penalties.is_empty());
    assert_eq!(
        handled.events,
        vec![
            NetworkBridgeEvent::PeerViewChange(peer(1), view(&[1], 2)),
            NetworkBridgeEvent::PeerViewChange(peer(1), view(&[1], 3)),
        ]
    );
    assert_eq!(peers.view_of(&peer(1)), Some(view(&[1], 3)));
}

#[test]
fn messages_of_a_batch_are_judged_one_after_the_other() {
    let mut peers = connected(&[peer(1)]);
    let batch: Vec<WireMessage<Message>> = vec![
        WireMessage::ViewUpdate(view(&[1], 5)),
        WireMessage::ProtocolMessage(ValidationProtocol::StatementDistribution(11)),
        WireMessage::ViewUpdate(view(&[2], 4)),
        WireMessage::ViewUpdate(view(&[], 5)),
        WireMessage::ViewUpdate(view(&[2], 5)),
    ];
    let handled: Handled<Message, ()> = handle_peer_messages(peer(1), &mut peers, batch);
    assert_eq!(handled.penalties, vec![malformed_view_cost(), empty_view_cost()]);
    assert_eq!(
        handled.events,
        vec![
            NetworkBridgeEvent::PeerViewChange(peer(1), view(&[1], 5)),
            NetworkBridgeEvent::PeerMessage(peer(1), ValidationProtocol::StatementDistribution(11)),
            NetworkBridgeEvent::PeerViewChange(peer(1), view(&[2], 5)),
        ]
    );
    assert_eq!(peers.view_of(&peer(1)), Some(view(&[2], 5)));
}

#[test]
fn judge_gives_each_verdict() {
    let stored = view(&[1], 5);
    assert_eq!(judge(&stored, &view(&[1, 2, 3, 4, 5, 6], 9)), ViewVerdict::Malformed);
    assert_eq!(judge(&stored, &view(&[2], 4)), ViewVerdict::Malformed);
    assert_eq!(judge(&stored, &view(&[], 5)), ViewVerdict::Empty);
    assert_eq!(judge(&stored, &view(&[1], 5)), ViewVerdict::Unchanged);
    assert_eq!(judge(&stored, &view(&[1], 6)), ViewVerdict::Accepted);
    assert_eq!(judge(&stored, &view(&[2], 5)), ViewVerdict::Accepted);
}
