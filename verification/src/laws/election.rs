//! What comes of calls in an election.

use vstd::prelude::*;

use crate::cluster::election::{
    law_lowest_id_is_lowest, lowest_id, member_ids, ElectionAction, ElectionEvent, ElectionManager,
    ElectionState,
};
use crate::cluster::message::ClusterMessage;
use crate::cluster::node::{NodeId, NodeInfo};

verus! {

/// Whether two managers differ in nothing but their state.
pub open spec fn same_but_state(a: ElectionManager, b: ElectionManager) -> bool {
    &&& a.node_id == b.node_id
    &&& a.peers == b.peers
    &&& a.election_timeout_secs == b.election_timeout_secs
}

/// Every candidacy for a later term than the node's own is answered, whatever else the
/// node is at: the candidate is told that it has won that term, and has the node's vote
/// and is its coordinator from then on. No other candidacy is answered or changes
/// anything.
pub proof fn law_every_later_candidacy_wins(
    manager: &mut ElectionManager,
    candidate: NodeId,
    term: u64,
    sender: &NodeId,
    answer: Option<ClusterMessage>,
)
    requires
        call_ensures(
            ElectionManager::handle_election_message,
            (manager, &ClusterMessage::Election { candidate_id: candidate, term }, sender),
            answer,
        ),
    ensures
        answer is Some <==> term > old(manager).state.term,
        answer matches Some(answer) ==> answer == (ClusterMessage::ElectionResult {
            winner_id: candidate,
            term,
        }),
        term > old(manager).state.term ==> {
            &&& final(manager).state.term == term
            &&& final(manager).state.voted_for == Some(candidate)
            &&& final(manager).state.coordinator == Some(candidate)
            &&& final(manager).state.is_candidate == old(manager).state.is_candidate
            &&& final(manager).state.election_in_progress
                == old(manager).state.election_in_progress
        },
        term <= old(manager).state.term ==> final(manager).state == old(manager).state,
        same_but_state(*final(manager), *old(manager)),
{
}

/// The result of the node's own term or a later one decides the election, whoever won
/// and whatever the node voted; the result of an earlier term changes nothing. No result
/// is answered.
pub proof fn law_result_decides(
    manager: &mut ElectionManager,
    winner: NodeId,
    term: u64,
    sender: &NodeId,
    answer: Option<ClusterMessage>,
)
    requires
        call_ensures(
            ElectionManager::handle_election_message,
            (manager, &ClusterMessage::ElectionResult { winner_id: winner, term }, sender),
            answer,
        ),
    ensures
        answer is None,
        term >= old(manager).state.term ==> {
            &&& final(manager).state.term == term
            &&& final(manager).state.coordinator == Some(winner)
            &&& !final(manager).state.is_candidate
            &&& !final(manager).state.election_in_progress
            &&& final(manager).state.voted_for == old(manager).state.voted_for
        },
        term < old(manager).state.term ==> final(manager).state == old(manager).state,
        same_but_state(*final(manager), *old(manager)),
{
}

/// Messages of other kinds have no part in an election.
pub proof fn law_other_messages_do_not_count(
    manager: &mut ElectionManager,
    message: &ClusterMessage,
    sender: &NodeId,
    answer: Option<ClusterMessage>,
)
    requires
        call_ensures(
            ElectionManager::handle_election_message,
            (manager, message, sender),
            answer,
        ),
        !(message is Election),
        !(message is ElectionResult),
    ensures
        answer is None,
        *final(manager) == *old(manager),
{
}

/// A node that stands does so in the term after its own, with its own vote; while an
/// election is under way, standing changes nothing.
pub proof fn law_standing_opens_the_next_term(manager: &mut ElectionManager)
    requires
        old(manager).state.election_in_progress || old(manager).state.term < u64::MAX,
        call_ensures(ElectionManager::start_election, (manager,), ()),
    ensures
        old(manager).state.election_in_progress ==> *final(manager) == *old(manager),
        !old(manager).state.election_in_progress ==> {
            &&& final(manager).state.term == old(manager).state.term + 1
            &&& final(manager).state.voted_for == Some(old(manager).node_id)
            &&& final(manager).state.is_candidate
            &&& final(manager).state.election_in_progress
            &&& final(manager).state.coordinator == old(manager).state.coordinator
        },
        same_but_state(*final(manager), *old(manager)),
{
}

/// Whoever stands asks for the vote of every node of the same or an earlier term, and
/// gets it: standing, then being heard as a candidate, makes the node the other's
/// coordinator.
pub proof fn law_candidate_wins_over_a_node_of_its_term(
    candidate: &mut ElectionManager,
    other: &mut ElectionManager,
    sender: &NodeId,
    message: ClusterMessage,
    answer: Option<ClusterMessage>,
)
    requires
        !old(candidate).state.election_in_progress,
        old(candidate).state.term < u64::MAX,
        call_ensures(ElectionManager::start_election, (candidate,), ()),
        call_ensures(
            ClusterMessage::election,
            (final(candidate).node_id, final(candidate).state.term),
            message,
        ),
        old(other).state.term <= old(candidate).state.term,
        call_ensures(ElectionManager::handle_election_message, (other, &message, sender), answer),
    ensures
        answer == Some(
            ClusterMessage::ElectionResult {
                winner_id: old(candidate).node_id,
                term: (old(candidate).state.term + 1) as u64,
            },
        ),
        final(other).state.coordinator == Some(old(candidate).node_id),
        final(other).state.term == final(candidate).state.term,
{
}

/// Deciding for a node, or for itself, ends the election and leaves the term and the vote.
pub proof fn law_deciding_ends_the_election(
    manager: &mut ElectionManager,
    itself: &mut ElectionManager,
    coordinator: NodeId,
)
    requires
        call_ensures(ElectionManager::set_coordinator, (manager, coordinator), ()),
        call_ensures(ElectionManager::become_coordinator, (itself,), ()),
    ensures
        final(manager).state == (ElectionState {
            term: old(manager).state.term,
            voted_for: old(manager).state.voted_for,
            coordinator: Some(coordinator),
            is_candidate: false,
            election_in_progress: false,
        }),
        same_but_state(*final(manager), *old(manager)),
        final(itself).state == (ElectionState {
            term: old(itself).state.term,
            voted_for: old(itself).state.voted_for,
            coordinator: Some(old(itself).node_id),
            is_candidate: false,
            election_in_progress: false,
        }),
        same_but_state(*final(itself), *old(itself)),
{
}

/// A new manager has seen no election, and what can be asked of one is its state.
pub proof fn law_manager_tells_its_state(
    node_id: NodeId,
    peers: Vec<NodeInfo>,
    timeout: u64,
    fresh: ElectionManager,
    manager: ElectionManager,
    asked: NodeId,
    due: bool,
    coordinator: Option<NodeId>,
    is: bool,
)
    requires
        call_ensures(ElectionManager::new, (node_id, peers, timeout), fresh),
        call_ensures(ElectionManager::check_election_timeout, (&manager,), due),
        call_ensures(ElectionManager::get_coordinator, (&manager,), coordinator),
        call_ensures(ElectionManager::is_coordinator, (&manager, &asked), is),
    ensures
        fresh.node_id == node_id,
        fresh.peers == peers,
        fresh.election_timeout_secs == timeout,
        fresh.state == (ElectionState {
            term: 0,
            voted_for: None,
            coordinator: None,
            is_candidate: false,
            election_in_progress: false,
        }),
        due <==> manager.state.election_in_progress && manager.state.is_candidate,
        coordinator == manager.state.coordinator,
        is <==> coordinator == Some(asked),
{
}

/// A state made by default is that of a new manager.
pub proof fn law_default_state_is_before_any_election(state: ElectionState)
    requires
        call_ensures(ElectionState::default, (), state),
    ensures
        state.term == 0,
        state.voted_for is None,
        state.coordinator is None,
        !state.is_candidate,
        !state.election_in_progress,
{
}

/// The elected node is this one or one of its peers, and neither this one nor any peer
/// has a lower id.
pub proof fn law_elected_node_has_the_lowest_id(manager: ElectionManager, winner: NodeId)
    requires
        call_ensures(ElectionManager::elect_lowest_id, (&manager,), winner),
    ensures
        winner == manager.node_id || exists|i: int|
            0 <= i < manager.peers.len() && (#[trigger] manager.peers[i]).id == winner,
        winner.0 <= manager.node_id.0,
        forall|i: int|
            0 <= i < manager.peers.len() ==> winner.0 <= (#[trigger] manager.peers[i]).id.0,
{
    let nodes = manager.peers.deep_view();
    law_lowest_id_is_lowest(manager.node_id, nodes);
    assert(member_ids(manager.node_id, nodes).contains(manager.node_id));
    assert(nodes.len() == manager.peers.len());
    assert forall|i: int| 0 <= i < manager.peers.len() implies winner.0 <= (
    #[trigger] manager.peers[i]).id.0 by {
        assert(nodes[i].id == manager.peers[i].id);
        assert(member_ids(manager.node_id, nodes).contains(nodes[i].id));
    }
    if winner != manager.node_id {
        assert(member_ids(manager.node_id, nodes).contains(lowest_id(manager.node_id, nodes)));
        let i = choose|i: int| 0 <= i < nodes.len() && #[trigger] nodes[i].id == winner;
        assert(manager.peers[i].id == winner);
    }
}

/// A turn of the election loop on a message does what handling the message does, and
/// sends the answer, if there is one, to the candidate.
pub proof fn law_election_loop_answers_the_candidate(
    manager: &mut ElectionManager,
    direct: &mut ElectionManager,
    message: ClusterMessage,
    sender: &NodeId,
    action: ElectionAction,
    answer: Option<ClusterMessage>,
)
    requires
        *old(direct) == *old(manager),
        call_ensures(
            ElectionManager::run_election_step,
            (manager, ElectionEvent::Message(message)),
            action,
        ),
        call_ensures(ElectionManager::handle_election_message, (direct, &message, sender), answer),
    ensures
        *final(manager) == *final(direct),
        answer is None ==> action is Wait,
        answer is Some ==> {
            &&& action matches ElectionAction::Reply { to, message: reply }
            &&& message matches ClusterMessage::Election { candidate_id, .. }
            &&& to == candidate_id
            &&& Some(reply) == answer
        },
{
}

/// A turn of the election loop without a message changes nothing: it waits on after a
/// timeout, and stops once no message will come.
pub proof fn law_election_loop_without_messages(
    timed_out: &mut ElectionManager,
    closed: &mut ElectionManager,
    waits: ElectionAction,
    stops: ElectionAction,
)
    requires
        call_ensures(
            ElectionManager::run_election_step,
            (timed_out, ElectionEvent::TimedOut),
            waits,
        ),
        call_ensures(ElectionManager::run_election_step, (closed, ElectionEvent::Closed), stops),
    ensures
        waits is Wait,
        *final(timed_out) == *old(timed_out),
        stops is Stop,
        *final(closed) == *old(closed),
{
}

} // verus!
