//! Reputation changes and the fixed penalties the bridge applies to peers
//! that break the protocol.

use vstd::prelude::*;

verus! {

/// A signed adjustment of a peer's reputation, with the reason for it.
#[derive(Clone, Copy, Debug, PartialEq, Eq)]
pub struct ReputationChange {
    /// The score added to the peer's reputation; a penalty is negative.
    pub value: i32,
    /// Why the reputation changes.
    pub reason: &'static str,
}

impl ReputationChange {
    /// A change of `value` for `reason`.
    pub fn new(value: i32, reason: &'static str) -> (change: ReputationChange)
        ensures
            change == (ReputationChange { value, reason }),
    {
        ReputationChange { value, reason }
    }
}

/// Score of the penalty for a notification that cannot be decoded.
pub const MALFORMED_MESSAGE_SCORE: i32 = -500;

/// Score of the penalty for a message on a peer-set the sender is not connected on.
pub const UNCONNECTED_PEERSET_SCORE: i32 = -50;

/// Score of the penalty for a view with too many heads or a lowered finalized number.
pub const MALFORMED_VIEW_SCORE: i32 = -500;

/// Score of the penalty for a view without heads.
pub const EMPTY_VIEW_SCORE: i32 = -500;

/// The penalty for a notification that cannot be decoded.
#[verifier::allow_in_spec]
pub fn malformed_message_cost() -> ReputationChange
    returns
        (ReputationChange {
            value: MALFORMED_MESSAGE_SCORE,
            reason: "Malformed Network-bridge message",
        }),
{
    ReputationChange { value: MALFORMED_MESSAGE_SCORE, reason: "Malformed Network-bridge message" }
}

/// The penalty for a message on a peer-set the sender is not connected on.
#[verifier::allow_in_spec]
pub fn unconnected_peerset_cost() -> ReputationChange
    returns
        (ReputationChange {
            value: UNCONNECTED_PEERSET_SCORE,
            reason: "Message sent to un-connected peer-set",
        }),
{
    ReputationChange {
        value: UNCONNECTED_PEERSET_SCORE,
        reason: "Message sent to un-connected peer-set",
    }
}

/// The penalty for a view with too many heads or a finalized number that went down.
#[verifier::allow_in_spec]
pub fn malformed_view_cost() -> ReputationChange
    returns
        (ReputationChange { value: MALFORMED_VIEW_SCORE, reason: "Malformed view" }),
{
    ReputationChange { value: MALFORMED_VIEW_SCORE, reason: "Malformed view" }
}

/// The penalty for a view without heads.
#[verifier::allow_in_spec]
pub fn empty_view_cost() -> ReputationChange
    returns
        (ReputationChange { value: EMPTY_VIEW_SCORE, reason: "Peer sent us an empty view" }),
{
    ReputationChange { value: EMPTY_VIEW_SCORE, reason: "Peer sent us an empty view" }
}

/// The four penalties are negative scores, and no two of them are the same
/// change: their reasons differ pairwise.
pub proof fn penalties_are_distinct()
    ensures
        malformed_message_cost().value < 0,
        unconnected_peerset_cost().value < 0,
        malformed_view_cost().value < 0,
        empty_view_cost().value < 0,
        malformed_message_cost() != unconnected_peerset_cost(),
        malformed_message_cost() != malformed_view_cost(),
        malformed_message_cost() != empty_view_cost(),
        unconnected_peerset_cost() != malformed_view_cost(),
        unconnected_peerset_cost() != empty_view_cost(),
        malformed_view_cost() != empty_view_cost(),
{
    reveal_strlit("Malformed Network-bridge message");
    reveal_strlit("Message sent to un-connected peer-set");
    reveal_strlit("Malformed view");
    reveal_strlit("Peer sent us an empty view");
    assert(malformed_message_cost().reason@.len() == 32);
    assert(unconnected_peerset_cost().reason@.len() == 37);
    assert(malformed_view_cost().reason@.len() == 14);
    assert(empty_view_cost().reason@.len() == 26);
}

} // verus!
