//! Views, peers, penalties, origins and the handles of the subsystem.

use network_bridge::cli::ValidationWorkerCommand;
use network_bridge::origin::{ensure_parachain, ensure_parachain_from, BadOrigin, Origin, ParaId};
use network_bridge::peers::{PeerData, PeerMap};
use network_bridge::primitives::{BlockHash, PeerId};
use network_bridge::reputation::{
    empty_view_cost, malformed_message_cost, malformed_view_cost, unconnected_peerset_cost,
    ReputationChange, EMPTY_VIEW_SCORE, MALFORMED_MESSAGE_SCORE, MALFORMED_VIEW_SCORE,
    UNCONNECTED_PEERSET_SCORE,
};
use network_bridge::view::{construct_view, share_heads, OurView, View, MAX_VIEW_HEADS};
use network_bridge::NetworkBridge;
use std::sync::Arc;

fn live(n: u8) -> Vec<(BlockHash, Arc<u8>)> {
    (1..=n).map(|i| (BlockHash::repeat_byte(i), Arc::new(i))).collect()
}

fn hashes(bytes: &[u8]) -> Vec<BlockHash> {
    bytes.iter().map(|b| BlockHash::repeat_byte(*b)).collect()
}

#[test]
fn construct_view_takes_the_five_most_recent_heads() {
    assert_eq!(MAX_VIEW_HEADS, 5);
    assert_eq!(construct_view(&live(6), 7), View::new(hashes(&[6, 5, 4, 3, 2]), 7));
    assert_eq!(construct_view(&live(5), 0), View::new(hashes(&[5, 4, 3, 2, 1]), 0));
    assert_eq!(construct_view(&live(2), 1), View::new(hashes(&[2, 1]), 1));
    assert_eq!(construct_view(&live(0), 3), View::new(vec![], 3));
    assert_eq!(construct_view(&live(200), 3), View::new(hashes(&[200, 199, 198, 197, 196]), 3));
}

#[test]
fn views_compare_by_heads_and_finalized_number() {
    assert_eq!(View::default(), View::new(vec![], 0));
    assert_ne!(View::new(hashes(&[1]), 0), View::new(hashes(&[1]), 1));
    assert_ne!(View::new(hashes(&[1, 2]), 0), View::new(hashes(&[2, 1]), 0));
    assert_ne!(View::new(hashes(&[1]), 0), View::new(hashes(&[1, 1]), 0));
    let view = View::new(hashes(&[1, 2]), 4);
    assert_eq!(view.clone(), view);
    assert!(view.contains(&BlockHash::repeat_byte(2)));
    assert!(!view.contains(&BlockHash::repeat_byte(3)));
}

#[test]
fn hashes_and_peers_compare_by_their_bytes() {
    assert_eq!(BlockHash::repeat_byte(4), BlockHash([4; 32]));
    let mut bytes = [4u8; 32];
    bytes[31] = 5;
    assert_ne!(BlockHash::repeat_byte(4), BlockHash(bytes));
    assert_eq!(PeerId::from_bytes(vec![1, 2]), PeerId::from_bytes(vec![1, 2]));
    assert_ne!(PeerId::from_bytes(vec![1, 2]), PeerId::from_bytes(vec![1, 2, 0]));
    assert_ne!(PeerId::from_bytes(vec![1, 2]), PeerId::from_bytes(vec![1, 3]));
    assert_eq!(PeerId::from_bytes(vec![1, 2]).clone(), PeerId::from_bytes(vec![1, 2]));
}

#[test]
fn shared_heads_refer_to_the_same_spans() {
    let heads = live(3);
    let copy = share_heads(&heads);
    assert_eq!(copy, heads);
    for (first, shared) in heads.iter().zip(copy.iter()) {
        assert!(Arc::ptr_eq(&first.1, &shared.1));
        assert_eq!(Arc::strong_count(&first.1), 2);
    }
    let our_view = OurView::new(copy, 3);
    let cloned = our_view.clone();
    assert_eq!(cloned, our_view);
    assert!(Arc::ptr_eq(&cloned.heads[2].1, &heads[2].1));
    assert_eq!(Arc::strong_count(&heads[2].1), 3);
}

#[test]
fn peer_map_keeps_one_entry_per_peer_in_connection_order() {
    let peer = |n: u8| PeerId::from_bytes(vec![n]);
    let mut peers = PeerMap::new();
    assert!(peers.is_empty());
    assert!(peers.insert(peer(1)));
    assert!(peers.insert(peer(2)));
    assert!(peers.insert(peer(3)));
    assert!(!peers.insert(peer(2)));
    assert_eq!(peers.len(), 3);
    assert_eq!(peers.peers(), vec![peer(1), peer(2), peer(3)]);
    assert!(peers.set_view(&peer(2), View::new(hashes(&[9]), 1)));
    assert!(!peers.set_view(&peer(4), View::new(hashes(&[9]), 1)));
    assert!(!peers.insert(peer(2)));
    assert_eq!(peers.view_of(&peer(2)), Some(View::new(hashes(&[9]), 1)));
    assert_eq!(peers.view_of(&peer(1)), Some(View::default()));
    assert!(peers.remove(&peer(1)));
    assert!(!peers.remove(&peer(1)));
    assert!(!peers.contains(&peer(1)));
    assert_eq!(peers.peers(), vec![peer(2), peer(3)]);
    assert_eq!(peers.view_of(&peer(2)), Some(View::new(hashes(&[9]), 1)));
    assert_eq!(PeerData::default().view, View::default());
}

#[test]
fn penalties_have_their_scores_and_reasons() {
    assert_eq!(
        malformed_message_cost(),
        ReputationChange::new(-500, "Malformed Network-bridge message")
    );
    assert_eq!(
        unconnected_peerset_cost(),
        ReputationChange::new(-50, "Message sent to un-connected peer-set")
    );
    assert_eq!(malformed_view_cost(), ReputationChange::new(-500, "Malformed view"));
    assert_eq!(empty_view_cost(), ReputationChange::new(-500, "Peer sent us an empty view"));
    assert_eq!(MALFORMED_MESSAGE_SCORE, -500);
    assert_eq!(UNCONNECTED_PEERSET_SCORE, -50);
    assert_eq!(MALFORMED_VIEW_SCORE, -500);
    assert_eq!(EMPTY_VIEW_SCORE, -500);
    let all =
        [malformed_message_cost(), unconnected_peerset_cost(), malformed_view_cost(), empty_view_cost()];
    for (i, first) in all.iter().enumerate() {
        assert!(first.value < 0);
        for second in &all[i + 1..] {
            assert_ne!(first, second);
        }
    }
}

/// An outer origin as a runtime has it: of this module, or of another.
#[derive(Debug, PartialEq)]
enum OuterOrigin {
    Parachains(Origin),
    System(u8),
}

impl From<OuterOrigin> for Result<Origin, OuterOrigin> {
    fn from(outer: OuterOrigin) -> Self {
        match outer {
            OuterOrigin::Parachains(origin) => Ok(origin),
            other => Err(other),
        }
    }
}

#[test]
fn ensure_parachain_gives_the_id_or_bad_origin() {
    assert_eq!(ensure_parachain(OuterOrigin::Parachains(Origin::from(100))), Ok(ParaId(100)));
    assert_eq!(ensure_parachain(OuterOrigin::System(1)), Err(BadOrigin));
    assert_eq!(
        ensure_parachain_from::<OuterOrigin>(Ok(Origin::Parachain(ParaId(7)))),
        Ok(ParaId(7))
    );
    assert_eq!(ensure_parachain_from(Err(OuterOrigin::System(2))), Err(BadOrigin));
    assert_eq!(Origin::from(5), Origin::Parachain(ParaId(5)));
}

#[test]
fn bridge_hands_back_the_handles_it_was_made_with() {
    let bridge = NetworkBridge::new("network", 17u8);
    assert_eq!(bridge.into_parts(), ("network", 17u8));
}

#[test]
fn validation_worker_command_holds_its_memory_id() {
    let command = ValidationWorkerCommand { mem_id: String::from("shm-1") };
    assert_eq!(command.mem_id, "shm-1");
}
