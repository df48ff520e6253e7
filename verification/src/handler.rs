//! The message handler: judges the wire messages a peer sent on one
//! peer-set, keeps the peer's stored view up to date, and says which
//! penalties the peer has earned and which events follow.

use crate::event::{EventModel, NetworkBridgeEvent};
use crate::peers::{has_peer, stored_view, with_view, PeerEntries, PeerMap};
use crate::primitives::{views, PeerId};
use crate::reputation::{
    empty_view_cost,
    malformed_view_cost,
    unconnected_peerset_cost,
    ReputationChange,
};
use crate::view::{View, ViewModel, MAX_VIEW_HEADS};
use crate::wire::{WireMessage, WireMessageModel};
use vstd::prelude::*;
use vstd::view::View as _;

verus! {

/// What the handler makes of a view that a peer announced.
#[derive(Clone, Copy, Debug, PartialEq, Eq, Structural)]
pub enum ViewVerdict {
    /// Too many heads, or a finalized number below the stored one: rejected
    /// with the penalty for a malformed view.
    Malformed,
    /// No heads: rejected with the penalty for an empty view.
    Empty,
    /// The view that is stored already: dropped in silence.
    Unchanged,
    /// A new view: stored and reported.
    Accepted,
}

/// The verdict on `announced` from a peer whose stored view is `stored`.
pub open spec fn judge_view(stored: ViewModel, announced: ViewModel) -> ViewVerdict {
    if announced.heads.len() > MAX_VIEW_HEADS || announced.finalized_number
        < stored.finalized_number {
        ViewVerdict::Malformed
    } else if announced.heads.len() == 0 {
        ViewVerdict::Empty
    } else if announced == stored {
        ViewVerdict::Unchanged
    } else {
        ViewVerdict::Accepted
    }
}

/// The state of the handler while it works through the messages of a
/// connected peer.
pub struct HandledModel<M, S> {
    /// The view stored for the peer.
    pub stored: ViewModel,
    /// The penalties earned so far, in the order of the messages that earned them.
    pub penalties: Seq<ReputationChange>,
    /// The events produced so far, in the order of the messages that produced them.
    pub events: Seq<EventModel<M, S>>,
}

/// The handler's state after one more `message` from the connected `peer`.
pub open spec fn handle_message<M, S>(
    peer: Seq<u8>,
    before: HandledModel<M, S>,
    message: WireMessageModel<M>,
) -> HandledModel<M, S> {
    match message {
        WireMessageModel::ProtocolMessage(inner) => HandledModel {
            events: before.events.push(EventModel::PeerMessage(peer, inner)),
            ..before
        },
        WireMessageModel::ViewUpdate(announced) => match judge_view(before.stored, announced) {
            ViewVerdict::Malformed => HandledModel {
                penalties: before.penalties.push(malformed_view_cost()),
                ..before
            },
            ViewVerdict::Empty => HandledModel {
                penalties: before.penalties.push(empty_view_cost()),
                ..before
            },
            ViewVerdict::Unchanged => before,
            ViewVerdict::Accepted => HandledModel {
                stored: announced,
                events: before.events.push(EventModel::PeerViewChange(peer, announced)),
                ..before
            },
        },
    }
}

/// The handler's state after all of `messages`, in order, from the connected
/// `peer` whose stored view was `stored`.
pub open spec fn handle_messages<M, S>(
    peer: Seq<u8>,
    stored: ViewModel,
    messages: Seq<WireMessageModel<M>>,
) -> HandledModel<M, S>
    decreases messages.len(),
{
    if messages.len() == 0 {
        HandledModel { stored, penalties: Seq::empty(), events: Seq::empty() }
    } else {
        handle_message(
            peer,
            handle_messages(peer, stored, messages.drop_last()),
            messages.last(),
        )
    }
}

/// What handling a batch of messages from one peer asks for.
#[derive(Debug, PartialEq, Eq)]
pub struct Handled<M, S> {
    /// The penalties to report against the peer, in order.
    pub penalties: Vec<ReputationChange>,
    /// The events to dispatch, in order.
    pub events: Vec<NetworkBridgeEvent<M, S>>,
}

/// The penalties that a batch of `messages` from `peer` earns, given the
/// entries of the peer-set it came in on.
pub open spec fn batch_penalties<M, S>(
    entries: PeerEntries,
    peer: Seq<u8>,
    messages: Seq<WireMessageModel<M>>,
) -> Seq<ReputationChange> {
    if has_peer(entries, peer) {
        handle_messages::<M, S>(peer, stored_view(entries, peer), messages).penalties
    } else {
        seq![unconnected_peerset_cost()]
    }
}

/// The events that a batch of `messages` from `peer` produces.
pub open spec fn batch_events<M, S>(
    entries: PeerEntries,
    peer: Seq<u8>,
    messages: Seq<WireMessageModel<M>>,
) -> Seq<EventModel<M, S>> {
    if has_peer(entries, peer) {
        handle_messages::<M, S>(peer, stored_view(entries, peer), messages).events
    } else {
        Seq::empty()
    }
}

/// The entries of the peer-set after a batch of `messages` from `peer`.
pub open spec fn batch_entries<M, S>(
    entries: PeerEntries,
    peer: Seq<u8>,
    messages: Seq<WireMessageModel<M>>,
) -> PeerEntries {
    if has_peer(entries, peer) {
        with_view(
            entries,
            peer,
            handle_messages::<M, S>(peer, stored_view(entries, peer), messages).stored,
        )
    } else {
        entries
    }
}

/// Judges `announced` against the stored view.
pub fn judge(stored: &View, announced: &View) -> (verdict: ViewVerdict)
    ensures
        verdict == judge_view(stored@, announced@),
{
    if announced.heads.len() > MAX_VIEW_HEADS || announced.finalized_number
        < stored.finalized_number {
        ViewVerdict::Malformed
    } else if announced.heads.len() == 0 {
        ViewVerdict::Empty
    } else if *announced == *stored {
        ViewVerdict::Unchanged
    } else {
        ViewVerdict::Accepted
    }
}

/// Handles the batch of `messages` that `peer` sent on the peer-set whose
/// connected peers are `peers`.
///
/// A peer without an entry earns the penalty for an unconnected peer-set
/// once, and its whole batch is dropped. The messages of a connected peer are
/// handled one by one, in order: a protocol message becomes an event; a view
/// update is judged against the stored view and rejected with a penalty,
/// dropped, or stored and reported.
pub fn handle_peer_messages<M, S>(
    peer: PeerId,
    peers: &mut PeerMap,
    messages: Vec<WireMessage<M>>,
) -> (handled: Handled<M, S>)
    requires
        old(peers).wf(),
    ensures
        final(peers).wf(),
        final(peers)@ == batch_entries::<M, S>(old(peers)@, peer@, views(messages@)),
        handled.penalties@ == batch_penalties::<M, S>(old(peers)@, peer@, views(messages@)),
        views(handled.events@) == batch_events::<M, S>(old(peers)@, peer@, views(messages@)),
{
    let mut penalties: Vec<ReputationChange> = Vec::new();
    let mut events: Vec<NetworkBridgeEvent<M, S>> = Vec::new();
    let mut stored = match peers.view_of(&peer) {
        None => {
            penalties.push(unconnected_peerset_cost());
            assert(penalties@ =~= seq![unconnected_peerset_cost()]);
            assert(views(events@) =~= Seq::empty());
            return Handled { penalties, events };
        },
        Some(view) => view,
    };
    let ghost all = views(messages@);
    let ghost first = stored@;
    assert(views(events@) =~= Seq::empty());
    assert(all.take(0) =~= Seq::empty());
    for message in it: messages.into_iter()
        invariant
            it.seq() == messages@,
            all == views(messages@),
            handle_messages::<M, S>(peer@, first, all.take(it.index() as int)) == (HandledModel {
                stored: stored@,
                penalties: penalties@,
                events: views(events@),
            }),
    {
        let ghost done = it.index() as int;
        let ghost before = HandledModel { stored: stored@, penalties: penalties@, events: views(events@) };
        let ghost old_events = events@;
        assert(all.take(done + 1).drop_last() =~= all.take(done));
        assert(all.take(done + 1).last() == message@);
        match message {
            WireMessage::ProtocolMessage(inner) => {
                events.push(NetworkBridgeEvent::PeerMessage(peer.clone(), inner));
            },
            WireMessage::ViewUpdate(announced) => {
                match judge(&stored, &announced) {
                    ViewVerdict::Malformed => {
                        penalties.push(malformed_view_cost());
                    },
                    ViewVerdict::Empty => {
                        penalties.push(empty_view_cost());
                    },
                    ViewVerdict::Unchanged => {},
                    ViewVerdict::Accepted => {
                        events.push(NetworkBridgeEvent::PeerViewChange(peer.clone(), announced.clone()));
                        stored = announced;
                    },
                }
            },
        }
        assert(views(events@) =~= handle_message(peer@, before, message@).events);
    }
    assert(all.take(all.len() as int) =~= all);
    let _ = peers.set_view(&peer, stored);
    Handled { penalties, events }
}

} // verus!
