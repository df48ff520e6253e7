//! The bridge driver, one action at a time.

use network_bridge::action::{Action, ActiveLeavesUpdate};
use network_bridge::bridge::{send_collation_message, send_validation_message, BridgeState};
use network_bridge::dispatch::{AllMessages, CollationProtocol, ValidationProtocol};
use network_bridge::effect::{Effect, Progress};
use network_bridge::event::NetworkBridgeEvent;
use network_bridge::primitives::{BlockHash, ObservedRole, PeerId, PeerSet};
use network_bridge::reputation::{unconnected_peerset_cost, ReputationChange};
use network_bridge::view::{OurView, View};
use network_bridge::wire::WireMessage;
use std::sync::Arc;

type TestAction = Action<u32, u8, &'static str>;
type TestEffect = Effect<u32, u8, &'static str>;

fn peer(n: u8) -> PeerId {
    PeerId::from_bytes(vec![n, 0, n])
}

fn hash(n: u8) -> BlockHash {
    BlockHash::repeat_byte(n)
}

fn effects(state: &mut BridgeState<u8>, action: TestAction) -> Vec<TestEffect> {
    assert!(state.admits(&action));
    match state.handle_action(action) {
        Progress::Continue(effects) => effects,
        Progress::Stop => panic!("the bridge stopped"),
    }
}

fn to_all_five(event: impl Fn() -> NetworkBridgeEvent<u32, u8>) -> Vec<AllMessages<u32, u8>> {
    vec![
        AllMessages::AvailabilityDistribution(event()),
        AllMessages::BitfieldDistribution(event()),
        AllMessages::PoVDistribution(event()),
        AllMessages::StatementDistribution(event()),
        AllMessages::ApprovalDistribution(event()),
    ]
}

fn activate(state: &mut BridgeState<u8>, n: u8, span: &Arc<u8>) -> Vec<TestEffect> {
    effects(state, Action::ActiveLeaves(ActiveLeavesUpdate::start_work(hash(n), span.clone())))
}

#[test]
fn bridge_starts_empty() {
    let state: BridgeState<u8> = BridgeState::new();
    assert_eq!(state.finalized_number(), 0);
    assert_eq!(*state.local_view(), View::default());
    assert!(state.live_heads().is_empty());
    assert!(state.peers(PeerSet::Validation).is_empty());
    assert!(state.peers(PeerSet::Collation).is_empty());
}

#[test]
fn nop_does_nothing_and_abort_stops() {
    let mut state: BridgeState<u8> = BridgeState::new();
    assert_eq!(effects(&mut state, Action::Nop), Vec::<TestEffect>::new());
    assert_eq!(state.handle_action(TestAction::Abort), Progress::Stop);
}

#[test]
fn connecting_stores_default_view_and_tells_every_consumer() {
    for peer_set in [PeerSet::Validation, PeerSet::Collation] {
        let mut state: BridgeState<u8> = BridgeState::new();
        let done =
            effects(&mut state, Action::PeerConnected(peer_set, peer(1), ObservedRole::Full));
        let mut messages = Vec::new();
        match peer_set {
            PeerSet::Validation => {
                messages.extend(to_all_five(|| {
                    NetworkBridgeEvent::PeerConnected(peer(1), ObservedRole::Full)
                }));
                messages.extend(to_all_five(|| {
                    NetworkBridgeEvent::PeerViewChange(peer(1), View::default())
                }));
            }
            PeerSet::Collation => {
                messages.push(AllMessages::CollatorProtocol(NetworkBridgeEvent::PeerConnected(
                    peer(1),
                    ObservedRole::Full,
                )));
                messages.push(AllMessages::CollatorProtocol(NetworkBridgeEvent::PeerViewChange(
                    peer(1),
                    View::default(),
                )));
            }
        }
        assert_eq!(
            done,
            vec![Effect::DiscoveryPeerConnected(peer(1)), Effect::SendMessages(messages)]
        );
        assert_eq!(state.peers(peer_set).view_of(&peer(1)), Some(View::default()));
        let other = match peer_set {
            PeerSet::Validation => PeerSet::Collation,
            PeerSet::Collation => PeerSet::Validation,
        };
        assert!(!state.peers(other).contains(&peer(1)));
    }
}

#[test]
fn reconnecting_is_a_no_op() {
    let mut state: BridgeState<u8> = BridgeState::new();
    effects(&mut state, Action::PeerConnected(PeerSet::Validation, peer(1), ObservedRole::Full));
    effects(
        &mut state,
        Action::PeerMessages(
            peer(1),
            vec![WireMessage::ViewUpdate(View::new(vec![hash(1)], 3))],
            vec![],
        ),
    );
    let again = effects(
        &mut state,
        Action::PeerConnected(PeerSet::Validation, peer(1), ObservedRole::Light),
    );
    assert_eq!(again, Vec::<TestEffect>::new());
    assert_eq!(state.peers(PeerSet::Validation).len(), 1);
    assert_eq!(
        state.peers(PeerSet::Validation).view_of(&peer(1)),
        Some(View::new(vec![hash(1)], 3))
    );
}

#[test]
fn disconnecting_tells_discovery_always_and_consumers_only_of_a_connected_peer() {
    let mut state: BridgeState<u8> = BridgeState::new();
    assert_eq!(
        effects(&mut state, Action::PeerDisconnected(PeerSet::Collation, peer(1))),
        vec![Effect::DiscoveryPeerDisconnected(peer(1))]
    );
    effects(&mut state, Action::PeerConnected(PeerSet::Collation, peer(1), ObservedRole::Full));
    assert_eq!(
        effects(&mut state, Action::PeerDisconnected(PeerSet::Collation, peer(1))),
        vec![
            Effect::DiscoveryPeerDisconnected(peer(1)),
            Effect::SendMessages(vec![AllMessages::CollatorProtocol(
                NetworkBridgeEvent::PeerDisconnected(peer(1))
            )]),
        ]
    );
    assert!(!state.peers(PeerSet::Collation).contains(&peer(1)));
    // After the disconnection the peer connects as a new peer.
    let done = effects(
        &mut state,
        Action::PeerConnected(PeerSet::Collation, peer(1), ObservedRole::Full),
    );
    assert_eq!(done.len(), 2);
}

#[test]
fn finalization_alone_sends_nothing_and_next_activation_carries_it() {
    let span = Arc::new(0u8);
    let mut state: BridgeState<u8> = BridgeState::new();
    effects(&mut state, Action::PeerConnected(PeerSet::Validation, peer(1), ObservedRole::Full));
    effects(&mut state, Action::PeerConnected(PeerSet::Validation, peer(2), ObservedRole::Full));
    effects(&mut state, Action::PeerConnected(PeerSet::Collation, peer(3), ObservedRole::Full));
    effects(&mut state, Action::BlockFinalized(5));
    activate(&mut state, 1, &span);
    assert_eq!(*state.local_view(), View::new(vec![hash(1)], 5));

    assert_eq!(effects(&mut state, Action::BlockFinalized(6)), Vec::<TestEffect>::new());
    assert_eq!(state.finalized_number(), 6);
    assert_eq!(*state.local_view(), View::new(vec![hash(1)], 5));

    let done = activate(&mut state, 2, &span);
    let our_view = || OurView::new(vec![(hash(1), span.clone()), (hash(2), span.clone())], 6);
    assert_eq!(
        done,
        vec![
            Effect::SendValidationMessage(
                vec![peer(1), peer(2)],
                WireMessage::ViewUpdate(View::new(vec![hash(2), hash(1)], 6)),
            ),
            Effect::SendCollationMessage(
                vec![peer(3)],
                WireMessage::ViewUpdate(View::new(vec![hash(2), hash(1)], 6)),
            ),
            Effect::SendMessages(to_all_five(|| NetworkBridgeEvent::OurViewChange(our_view()))),
            Effect::SendMessages(vec![AllMessages::CollatorProtocol(
                NetworkBridgeEvent::OurViewChange(our_view())
            )]),
        ]
    );
    assert_eq!(*state.local_view(), View::new(vec![hash(2), hash(1)], 6));
}

#[test]
fn finalization_must_go_up() {
    let mut state: BridgeState<u8> = BridgeState::new();
    assert!(!state.admits(&TestAction::BlockFinalized(0)));
    assert!(state.admits(&TestAction::BlockFinalized(1)));
    effects(&mut state, Action::BlockFinalized(7));
    assert!(!state.admits(&TestAction::BlockFinalized(7)));
    assert!(!state.admits(&TestAction::BlockFinalized(6)));
    assert!(state.admits(&TestAction::BlockFinalized(8)));
    assert!(state.admits(&TestAction::Nop));
}

#[test]
fn sixth_head_evicts_the_oldest_from_the_view() {
    let span = Arc::new(0u8);
    let mut state: BridgeState<u8> = BridgeState::new();
    effects(&mut state, Action::PeerConnected(PeerSet::Validation, peer(1), ObservedRole::Full));
    let mut last = Vec::new();
    for n in 1..=6 {
        last = activate(&mut state, n, &span);
    }
    assert_eq!(
        last[0],
        Effect::SendValidationMessage(
            vec![peer(1)],
            WireMessage::ViewUpdate(View::new(
                vec![hash(6), hash(5), hash(4), hash(3), hash(2)],
                0
            )),
        )
    );
    assert_eq!(state.live_heads().len(), 6);
    assert!(!state.local_view().contains(&hash(1)));
    assert!(state.local_view().contains(&hash(2)));
}

#[test]
fn deactivated_heads_leave_the_view() {
    let span = Arc::new(0u8);
    let mut state: BridgeState<u8> = BridgeState::new();
    for n in 1..=3 {
        activate(&mut state, n, &span);
    }
    let done = effects(&mut state, Action::ActiveLeaves(ActiveLeavesUpdate::stop_work(hash(2))));
    assert_eq!(*state.local_view(), View::new(vec![hash(3), hash(1)], 0));
    assert_eq!(state.live_heads(), &vec![(hash(1), span.clone()), (hash(3), span.clone())]);
    // No peer is connected: only the subsystems hear of the change.
    assert_eq!(done.len(), 2);
    // A head that is activated and deactivated at once never becomes live.
    let both = ActiveLeavesUpdate { activated: vec![(hash(9), span.clone())], deactivated: vec![hash(9)] };
    assert_eq!(effects(&mut state, Action::ActiveLeaves(both)), Vec::<TestEffect>::new());
    assert_eq!(state.live_heads().len(), 2);
}

#[test]
fn unchanged_heads_send_nothing() {
    let span = Arc::new(0u8);
    let mut state: BridgeState<u8> = BridgeState::new();
    effects(&mut state, Action::PeerConnected(PeerSet::Validation, peer(1), ObservedRole::Full));
    assert_eq!(
        effects(&mut state, Action::ActiveLeaves(ActiveLeavesUpdate::default())),
        Vec::<TestEffect>::new()
    );
    for n in 1..=6 {
        activate(&mut state, n, &span);
    }
    // The oldest head is outside the view: dropping it changes no head of the view.
    assert_eq!(
        effects(&mut state, Action::ActiveLeaves(ActiveLeavesUpdate::stop_work(hash(1)))),
        Vec::<TestEffect>::new()
    );
}

#[test]
fn batch_of_three_from_unconnected_peer_gives_one_report() {
    let mut state: BridgeState<u8> = BridgeState::new();
    effects(&mut state, Action::PeerConnected(PeerSet::Collation, peer(1), ObservedRole::Full));
    let done = effects(
        &mut state,
        Action::PeerMessages(
            peer(1),
            vec![
                WireMessage::ProtocolMessage(ValidationProtocol::PoVDistribution(1)),
                WireMessage::ViewUpdate(View::new(vec![hash(1)], 1)),
                WireMessage::ViewUpdate(View::new(vec![], 0)),
            ],
            vec![],
        ),
    );
    assert_eq!(done, vec![Effect::ReportPeer(peer(1), unconnected_peerset_cost())]);
    assert_eq!(state.peers(PeerSet::Collation).view_of(&peer(1)), Some(View::default()));
}

#[test]
fn both_batches_are_handled_validation_first() {
    let mut state: BridgeState<u8> = BridgeState::new();
    effects(&mut state, Action::PeerConnected(PeerSet::Collation, peer(1), ObservedRole::Full));
    let done = effects(
        &mut state,
        Action::PeerMessages(
            peer(1),
            vec![WireMessage::ProtocolMessage(ValidationProtocol::PoVDistribution(1))],
            vec![WireMessage::ProtocolMessage(CollationProtocol::CollatorProtocol(2))],
        ),
    );
    assert_eq!(
        done,
        vec![
            Effect::ReportPeer(peer(1), unconnected_peerset_cost()),
            Effect::SendMessages(vec![AllMessages::CollatorProtocol(
                NetworkBridgeEvent::PeerMessage(peer(1), 2)
            )]),
        ]
    );
    assert_eq!(
        effects(&mut state, Action::PeerMessages(peer(1), vec![], vec![])),
        Vec::<TestEffect>::new()
    );
}

#[test]
fn commands_are_passed_on() {
    let mut state: BridgeState<u8> = BridgeState::new();
    let change = ReputationChange::new(-7, "late");
    assert_eq!(
        effects(&mut state, Action::ReportPeer(peer(1), change)),
        vec![Effect::ReportPeer(peer(1), change)]
    );
    assert_eq!(
        effects(&mut state, Action::ConnectToValidators("alice and bob")),
        vec![Effect::ConnectToValidators("alice and bob")]
    );
    assert_eq!(
        effects(
            &mut state,
            Action::SendValidationMessages(vec![
                (vec![peer(1), peer(2)], ValidationProtocol::BitfieldDistribution(1)),
                (vec![], ValidationProtocol::BitfieldDistribution(2)),
                (vec![peer(3)], ValidationProtocol::ApprovalDistribution(3)),
            ])
        ),
        vec![
            Effect::SendValidationMessage(
                vec![peer(1), peer(2)],
                WireMessage::ProtocolMessage(ValidationProtocol::BitfieldDistribution(1)),
            ),
            Effect::SendValidationMessage(
                vec![peer(3)],
                WireMessage::ProtocolMessage(ValidationProtocol::ApprovalDistribution(3)),
            ),
        ]
    );
    assert_eq!(
        effects(
            &mut state,
            Action::SendCollationMessages(vec![(
                vec![peer(1)],
                CollationProtocol::CollatorProtocol(4)
            )])
        ),
        vec![Effect::SendCollationMessage(
            vec![peer(1)],
            WireMessage::ProtocolMessage(CollationProtocol::CollatorProtocol(4)),
        )]
    );
}

#[test]
fn live_heads_keep_the_spans_they_came_with() {
    let first = Arc::new(1u8);
    let second = Arc::new(2u8);
    let mut state: BridgeState<u8> = BridgeState::new();
    activate(&mut state, 1, &first);
    let done = activate(&mut state, 2, &second);
    assert!(Arc::ptr_eq(&state.live_heads()[0].1, &first));
    assert!(Arc::ptr_eq(&state.live_heads()[1].1, &second));
    match &done[1] {
        Effect::SendMessages(messages) => match &messages[0] {
            AllMessages::CollatorProtocol(NetworkBridgeEvent::OurViewChange(our_view)) => {
                assert!(Arc::ptr_eq(&our_view.heads[0].1, &first));
                assert!(Arc::ptr_eq(&our_view.heads[1].1, &second));
            }
            other => panic!("unexpected message: {:?}", other),
        },
        other => panic!("unexpected effect: {:?}", other),
    }
}

#[test]
fn writes_without_a_target_are_left_out() {
    let mut effects: Vec<TestEffect> = Vec::new();
    send_validation_message(&mut effects, vec![], WireMessage::ViewUpdate(View::default()));
    send_collation_message(&mut effects, vec![], WireMessage::ViewUpdate(View::default()));
    assert!(effects.is_empty());
    send_validation_message(&mut effects, vec![peer(1)], WireMessage::ViewUpdate(View::default()));
    send_collation_message(
        &mut effects,
        vec![peer(2), peer(3)],
        WireMessage::ProtocolMessage(CollationProtocol::CollatorProtocol(8)),
    );
    assert_eq!(
        effects,
        vec![
            Effect::SendValidationMessage(vec![peer(1)], WireMessage::ViewUpdate(View::default())),
            Effect::SendCollationMessage(
                vec![peer(2), peer(3)],
                WireMessage::ProtocolMessage(CollationProtocol::CollatorProtocol(8)),
            ),
        ]
    );
}

#[test]
fn view_that_is_up_to_date_is_not_announced_again() {
    let span = Arc::new(0u8);
    let mut state: BridgeState<u8> = BridgeState::new();
    let nothing: Vec<TestEffect> = state.update_our_view();
    assert!(nothing.is_empty());
    activate(&mut state, 1, &span);
    let nothing: Vec<TestEffect> = state.update_our_view();
    assert!(nothing.is_empty());
    assert_eq!(*state.local_view(), View::new(vec![hash(1)], 0));
}
