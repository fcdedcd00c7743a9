//! The election of a coordinator.

use vstd::prelude::*;

use crate::cluster::message::{ClusterMessage, MessageView};
use crate::cluster::node::{NodeId, NodeInfo, NodeInfoView};

verus! {

/// What a node remembers of elections.
#[derive(Debug, Clone, Copy, PartialEq, Eq, Structural)]
pub struct ElectionState {
    pub term: u64,
    pub voted_for: Option<NodeId>,
    pub coordinator: Option<NodeId>,
    pub is_candidate: bool,
    pub election_in_progress: bool,
}

impl Default for ElectionState {
    fn default() -> (state: Self)
        ensures
            state == ElectionState::initial(),
    {
        ElectionState {
            term: 0,
            voted_for: None,
            coordinator: None,
            is_candidate: false,
            election_in_progress: false,
        }
    }
}

impl ElectionState {
    /// Before any election.
    pub open spec fn initial() -> ElectionState {
        ElectionState {
            term: 0,
            voted_for: None,
            coordinator: None,
            is_candidate: false,
            election_in_progress: false,
        }
    }

    /// The node `own` stands for election in the next term and votes for itself,
    /// unless an election is under way.
    pub open spec fn started(self, own: NodeId) -> ElectionState {
        if self.election_in_progress {
            self
        } else {
            ElectionState {
                term: (self.term + 1) as u64,
                voted_for: Some(own),
                is_candidate: true,
                election_in_progress: true,
                ..self
            }
        }
    }

    /// The election is over and `coordinator` won it.
    pub open spec fn settled(self, coordinator: NodeId) -> ElectionState {
        ElectionState {
            coordinator: Some(coordinator),
            is_candidate: false,
            election_in_progress: false,
            ..self
        }
    }

    /// The state after `message`: a candidate for a later term gets the vote and is
    /// taken for coordinator; the result of the current or a later term settles the
    /// election; nothing else counts.
    pub open spec fn after(self, message: MessageView) -> ElectionState {
        match message {
            MessageView::Election { candidate_id, term } => if term > self.term {
                ElectionState {
                    term,
                    voted_for: Some(candidate_id),
                    coordinator: Some(candidate_id),
                    ..self
                }
            } else {
                self
            },
            MessageView::ElectionResult { winner_id, term } => if term >= self.term {
                (ElectionState { term, ..self }).settled(winner_id)
            } else {
                self
            },
            _ => self,
        }
    }

    /// The answer to `message`: a candidate for a later term is told that it has
    /// won.
    pub open spec fn answer(self, message: MessageView) -> Option<MessageView> {
        match message {
            MessageView::Election { candidate_id, term } if term > self.term => Some(
                MessageView::ElectionResult { winner_id: candidate_id, term },
            ),
            _ => None,
        }
    }
}

/// A node's part in elections.
#[derive(Debug)]
pub struct ElectionManager {
    pub node_id: NodeId,
    /// The other nodes.
    pub peers: Vec<NodeInfo>,
    pub state: ElectionState,
    pub election_timeout_secs: u64,
}

/// What the election loop waits for.
#[derive(Debug)]
pub enum ElectionEvent {
    Message(ClusterMessage),
    /// No message came within the election timeout.
    TimedOut,
    /// No message will come any more.
    Closed,
}

/// What the election loop is to do.
#[derive(Debug)]
pub enum ElectionAction {
    /// Wait for the next event.
    Wait,
    /// Send a message to a node, then wait for the next event.
    Reply { to: NodeId, message: ClusterMessage },
    /// Leave the loop.
    Stop,
}

/// An [`ElectionEvent`] with its text as characters.
pub enum ElectionEventView {
    Message(MessageView),
    TimedOut,
    Closed,
}

/// An [`ElectionAction`] with its text as characters.
pub enum ElectionActionView {
    Wait,
    Reply { to: NodeId, message: MessageView },
    Stop,
}

impl View for ElectionEvent {
    type V = ElectionEventView;

    open spec fn view(&self) -> ElectionEventView {
        match self {
            ElectionEvent::Message(message) => ElectionEventView::Message(message@),
            ElectionEvent::TimedOut => ElectionEventView::TimedOut,
            ElectionEvent::Closed => ElectionEventView::Closed,
        }
    }
}

impl View for ElectionAction {
    type V = ElectionActionView;

    open spec fn view(&self) -> ElectionActionView {
        match self {
            ElectionAction::Wait => ElectionActionView::Wait,
            ElectionAction::Reply { to, message } => ElectionActionView::Reply {
                to: *to,
                message: message@,
            },
            ElectionAction::Stop => ElectionActionView::Stop,
        }
    }
}

/// Who a message of the election loop came from; other messages do not say.
pub open spec fn election_sender(message: MessageView) -> Option<NodeId> {
    match message {
        MessageView::Election { candidate_id, .. } => Some(candidate_id),
        MessageView::ElectionResult { winner_id, .. } => Some(winner_id),
        MessageView::Handshake { node_info, .. } => Some(node_info.id),
        MessageView::HandshakeAck { node_info } => Some(node_info.id),
        _ => None,
    }
}

/// The lowest of an id and the ids of `nodes`.
pub open spec fn lowest_id(own: NodeId, nodes: Seq<NodeInfoView>) -> NodeId
    decreases nodes.len(),
{
    if nodes.len() == 0 {
        own
    } else {
        let rest = lowest_id(own, nodes.drop_last());
        if nodes.last().id.0 < rest.0 {
            nodes.last().id
        } else {
            rest
        }
    }
}

impl ElectionManager {
    pub fn new(node_id: NodeId, peers: Vec<NodeInfo>, election_timeout_secs: u64) -> (manager: Self)
        ensures
            manager.node_id == node_id,
            manager.peers == peers,
            manager.state == ElectionState::initial(),
            manager.election_timeout_secs == election_timeout_secs,
    {
        ElectionManager { node_id, peers, state: ElectionState::default(), election_timeout_secs }
    }

    /// Stands for election in the next term, unless an election is under way.
    pub fn start_election(&mut self)
        requires
            old(self).state.election_in_progress || old(self).state.term < u64::MAX,
        ensures
            *final(self) == (ElectionManager {
                state: old(self).state.started(old(self).node_id),
                ..*old(self)
            }),
    {
        if self.state.election_in_progress {
            return ;
        }
        self.state.term = self.state.term + 1;
        self.state.is_candidate = true;
        self.state.election_in_progress = true;
        self.state.voted_for = Some(self.node_id);
    }

    /// Takes notice of `message` and says what to answer.
    pub fn handle_election_message(&mut self, message: &ClusterMessage, _sender_id: &NodeId) -> (answer:
        Option<ClusterMessage>)
        ensures
            *final(self) == (ElectionManager {
                state: old(self).state.after(message@),
                ..*old(self)
            }),
            answer.deep_view() == old(self).state.answer(message@),
    {
        match message {
            ClusterMessage::Election { candidate_id, term } => {
                if *term > self.state.term {
                    self.state.term = *term;
                    self.state.voted_for = Some(*candidate_id);
                    self.state.coordinator = Some(*candidate_id);
                    Some(ClusterMessage::election_result(*candidate_id, *term))
                } else {
                    None
                }
            },
            ClusterMessage::ElectionResult { winner_id, term } => {
                if *term >= self.state.term {
                    self.state.term = *term;
                    self.state.coordinator = Some(*winner_id);
                    self.state.is_candidate = false;
                    self.state.election_in_progress = false;
                }
                None
            },
            _ => None,
        }
    }

    /// Whether the node stands in an election that is under way.
    pub fn check_election_timeout(&self) -> (due: bool)
        ensures
            due == (self.state.election_in_progress && self.state.is_candidate),
    {
        self.state.election_in_progress && self.state.is_candidate
    }

    pub fn get_coordinator(&self) -> (coordinator: Option<NodeId>)
        ensures
            coordinator == self.state.coordinator,
    {
        self.state.coordinator
    }

    /// Settles the election for `coordinator`.
    pub fn set_coordinator(&mut self, coordinator: NodeId)
        ensures
            *final(self) == (ElectionManager {
                state: old(self).state.settled(coordinator),
                ..*old(self)
            }),
    {
        self.state.coordinator = Some(coordinator);
        self.state.is_candidate = false;
        self.state.election_in_progress = false;
    }

    pub fn is_coordinator(&self, node_id: &NodeId) -> (is: bool)
        ensures
            is == (self.state.coordinator == Some(*node_id)),
    {
        match self.state.coordinator {
            Some(coordinator) => coordinator == *node_id,
            None => false,
        }
    }

    /// The lowest id among this node and its peers.
    pub fn elect_lowest_id(&self) -> (winner: NodeId)
        ensures
            winner == lowest_id(self.node_id, self.peers.deep_view()),
    {
        let ghost nodes = self.peers.deep_view();
        let mut winner = self.node_id;
        let mut i: usize = 0;
        while i < self.peers.len()
            invariant
                i <= self.peers.len(),
                nodes == self.peers.deep_view(),
                winner == lowest_id(self.node_id, nodes.take(i as int)),
            decreases self.peers.len() - i,
        {
            assert(nodes.take(i + 1).drop_last() =~= nodes.take(i as int));
            if self.peers[i].id.0 < winner.0 {
                winner = self.peers[i].id;
            }
            i += 1;
        }
        assert(nodes.take(nodes.len() as int) =~= nodes);
        winner
    }

    /// Settles the election for this node.
    pub fn become_coordinator(&mut self)
        ensures
            *final(self) == (ElectionManager {
                state: old(self).state.settled(old(self).node_id),
                ..*old(self)
            }),
    {
        self.set_coordinator(self.node_id);
    }

    /// One turn of the election loop. A message that says who it comes from is
    /// handled, and the answer goes back there; when none came in time, a candidate
    /// stands again, which it already does.
    pub fn run_election_step(&mut self, event: ElectionEvent) -> (action: ElectionAction)
        ensures
            *final(self) == (ElectionManager {
                state: match event@ {
                    ElectionEventView::Message(message) => old(self).state.after(message),
                    _ => old(self).state,
                },
                ..*old(self)
            }),
            action@ == match event@ {
                ElectionEventView::Message(message) => match old(self).state.answer(message) {
                    Some(answer) => ElectionActionView::Reply {
                        to: election_sender(message).unwrap(),
                        message: answer,
                    },
                    None => ElectionActionView::Wait,
                },
                ElectionEventView::TimedOut => ElectionActionView::Wait,
                ElectionEventView::Closed => ElectionActionView::Stop,
            },
    {
        match event {
            ElectionEvent::Message(message) => {
                let sender_id = match &message {
                    ClusterMessage::Election { candidate_id, .. } => *candidate_id,
                    ClusterMessage::ElectionResult { winner_id, .. } => *winner_id,
                    ClusterMessage::Handshake { node_info, .. } => node_info.id,
                    ClusterMessage::HandshakeAck { node_info } => node_info.id,
                    _ => {
                        return ElectionAction::Wait;
                    },
                };
                match self.handle_election_message(&message, &sender_id) {
                    Some(answer) => ElectionAction::Reply { to: sender_id, message: answer },
                    None => ElectionAction::Wait,
                }
            },
            ElectionEvent::TimedOut => {
                if self.check_election_timeout() {
                    self.start_election();
                }
                ElectionAction::Wait
            },
            ElectionEvent::Closed => ElectionAction::Stop,
        }
    }
}

/// Something that happens to a node's election state.
pub enum ElectionStep {
    /// A message is handled.
    Hear(MessageView),
    /// The node with this id stands for election.
    Start(NodeId),
    /// The election is settled for this node.
    Settle(NodeId),
}

impl ElectionState {
    /// Whether the step can be taken: a node stands only while there is a next
    /// term.
    pub open spec fn can_take(self, step: ElectionStep) -> bool {
        step is Start ==> self.election_in_progress || self.term < u64::MAX
    }

    /// The state after one step.
    pub open spec fn take(self, step: ElectionStep) -> ElectionState {
        match step {
            ElectionStep::Hear(message) => self.after(message),
            ElectionStep::Start(own) => self.started(own),
            ElectionStep::Settle(coordinator) => self.settled(coordinator),
        }
    }

    /// The vote that a step casts, with its term: for the candidate that is answered,
    /// or for the node itself when it stands.
    pub open spec fn vote(self, step: ElectionStep) -> Option<(u64, NodeId)> {
        match step {
            ElectionStep::Hear(MessageView::Election { candidate_id, term }) if term
                > self.term => Some((term, candidate_id)),
            ElectionStep::Start(own) if !self.election_in_progress => Some(
                ((self.term + 1) as u64, own),
            ),
            _ => None,
        }
    }

    /// The state after a series of steps.
    pub open spec fn take_all(self, steps: Seq<ElectionStep>) -> ElectionState
        decreases steps.len(),
    {
        if steps.len() == 0 {
            self
        } else {
            self.take_all(steps.drop_last()).take(steps.last())
        }
    }

    /// Whether each step of the series can be taken when its turn comes.
    pub open spec fn can_take_all(self, steps: Seq<ElectionStep>) -> bool
        decreases steps.len(),
    {
        steps.len() > 0 ==> self.can_take_all(steps.drop_last()) && self.take_all(
            steps.drop_last(),
        ).can_take(steps.last())
    }

    /// The votes that a series of steps casts, in order.
    pub open spec fn votes(self, steps: Seq<ElectionStep>) -> Seq<(u64, NodeId)>
        decreases steps.len(),
    {
        if steps.len() == 0 {
            Seq::empty()
        } else {
            let earlier = self.votes(steps.drop_last());
            match self.take_all(steps.drop_last()).vote(steps.last()) {
                Some(vote) => earlier.push(vote),
                None => earlier,
            }
        }
    }
}

/// Terms never go back, whatever happens.
pub proof fn law_term_never_falls(state: ElectionState, steps: Seq<ElectionStep>)
    requires
        state.can_take_all(steps),
    ensures
        state.take_all(steps).term >= state.term,
    decreases steps.len(),
{
    if steps.len() > 0 {
        law_term_never_falls(state, steps.drop_last());
    }
}

/// A node votes at most once in a term: the terms of its votes, its own candidacies
/// among them, strictly increase.
pub proof fn law_one_vote_per_term(state: ElectionState, steps: Seq<ElectionStep>)
    requires
        state.can_take_all(steps),
    ensures
        forall|i: int, j: int|
            0 <= i < j < state.votes(steps).len() ==> (#[trigger] state.votes(steps)[i]).0 < (
            #[trigger] state.votes(steps)[j]).0,
        forall|i: int|
            0 <= i < state.votes(steps).len() ==> (#[trigger] state.votes(steps)[i]).0
                <= state.take_all(steps).term,
    decreases steps.len(),
{
    if steps.len() > 0 {
        law_one_vote_per_term(state, steps.drop_last());
        let before = state.take_all(steps.drop_last());
        let earlier = state.votes(steps.drop_last());
        let votes = state.votes(steps);
        assert(before.take(steps.last()).term >= before.term);
        assert forall|i: int| 0 <= i < earlier.len() implies #[trigger] votes[i] == earlier[i]
            && earlier[i].0 <= before.term by {}
        if votes.len() > earlier.len() {
            assert(votes.last().0 > before.term);
            assert(votes.last().0 == state.take_all(steps).term);
        }
        assert forall|i: int, j: int| 0 <= i < j < votes.len() implies (#[trigger] votes[i]).0 < (
        #[trigger] votes[j]).0 by {
            if j < earlier.len() {
                assert(earlier[i].0 < earlier[j].0);
            }
        }
    }
}

/// Whoever is told that it has won got this node's vote, and is this node's
/// coordinator, for that very term.
pub proof fn law_answer_is_the_vote(state: ElectionState, message: MessageView)
    ensures
        state.answer(message) is Some ==> {
            &&& state.vote(ElectionStep::Hear(message)) matches Some((term, candidate))
            &&& state.answer(message) == Some(
                MessageView::ElectionResult { winner_id: candidate, term },
            )
            &&& state.after(message).term == term
            &&& state.after(message).voted_for == Some(candidate)
            &&& state.after(message).coordinator == Some(candidate)
        },
{
}

/// A candidacy that was answered once is not answered again.
pub proof fn law_candidacy_is_answered_once(state: ElectionState, message: MessageView)
    ensures
        state.after(message).answer(message) is None,
        message is Election ==> state.after(message).after(message) == state.after(message),
{
}

/// Nodes that hear the result of a term that none of them is past agree on the
/// coordinator and the term, and hold the election to be over.
pub proof fn law_result_brings_agreement(
    a: ElectionState,
    b: ElectionState,
    winner_id: NodeId,
    term: u64,
)
    requires
        a.term <= term,
        b.term <= term,
    ensures
        ({
            let result = MessageView::ElectionResult { winner_id, term };
            &&& a.after(result).coordinator == Some(winner_id)
            &&& b.after(result).coordinator == Some(winner_id)
            &&& a.after(result).term == b.after(result).term
            &&& !a.after(result).election_in_progress && !a.after(result).is_candidate
            &&& !b.after(result).election_in_progress && !b.after(result).is_candidate
        }),
{
}

/// The ids of a node and of those it knows.
pub open spec fn member_ids(own: NodeId, nodes: Seq<NodeInfoView>) -> Set<NodeId> {
    Set::new(|id: NodeId| id == own || exists|i: int| 0 <= i < nodes.len() && #[trigger] nodes[i].id == id)
}

/// The elected id is one of the members, and no member has a lower one.
pub proof fn law_lowest_id_is_lowest(own: NodeId, nodes: Seq<NodeInfoView>)
    ensures
        member_ids(own, nodes).contains(lowest_id(own, nodes)),
        forall|id: NodeId| #[trigger]
            member_ids(own, nodes).contains(id) ==> lowest_id(own, nodes).0 <= id.0,
    decreases nodes.len(),
{
    if nodes.len() > 0 {
        let init = nodes.drop_last();
        law_lowest_id_is_lowest(own, init);
        assert(member_ids(own, init).contains(own));
        assert forall|id: NodeId| #[trigger] member_ids(own, nodes).contains(id) implies lowest_id(
            own,
            nodes,
        ).0 <= id.0 by {
            if id != own {
                let i = choose|i: int| 0 <= i < nodes.len() && #[trigger] nodes[i].id == id;
                if i < init.len() {
                    assert(init[i].id == id);
                    assert(member_ids(own, init).contains(id));
                }
            }
        }
        let winner = lowest_id(own, nodes);
        if winner != own {
            if winner == nodes.last().id {
                assert(nodes[nodes.len() - 1].id == winner);
            } else {
                let i = choose|i: int| 0 <= i < init.len() && #[trigger] init[i].id == winner;
                assert(nodes[i].id == winner);
            }
        }
    }
}

/// Nodes that know of the same members elect the same one, in whatever order they
/// list them and whichever of them each is itself.
pub proof fn law_same_members_elect_the_same(
    own_a: NodeId,
    nodes_a: Seq<NodeInfoView>,
    own_b: NodeId,
    nodes_b: Seq<NodeInfoView>,
)
    requires
        member_ids(own_a, nodes_a) == member_ids(own_b, nodes_b),
    ensures
        lowest_id(own_a, nodes_a) == lowest_id(own_b, nodes_b),
{
    law_lowest_id_is_lowest(own_a, nodes_a);
    law_lowest_id_is_lowest(own_b, nodes_b);
    let a = lowest_id(own_a, nodes_a);
    let b = lowest_id(own_b, nodes_b);
    assert(member_ids(own_b, nodes_b).contains(a));
    assert(member_ids(own_a, nodes_a).contains(b));
}

} // verus!
