use zeroclaw_cluster::cluster::election::{
    ElectionAction, ElectionEvent, ElectionManager, ElectionState,
};
use zeroclaw_cluster::cluster::node::{NodeAddr, NodeId, NodeInfo};
use zeroclaw_cluster::cluster::ClusterMessage;
use zeroclaw_cluster::config::ClusterNodeRole;

fn make_test_node(id: NodeId, ip: [u8; 4], port: u16) -> NodeInfo {
    NodeInfo::new(
        id,
        format!("node-{}", id.to_string()),
        NodeAddr::V4 {
            ip: u32::from_be_bytes(ip),
            port,
        },
        ClusterNodeRole::Worker,
        vec![],
    )
}

fn manager(id: u128, peers: &[u128]) -> ElectionManager {
    let peers = peers
        .iter()
        .map(|p| make_test_node(NodeId(*p), [127, 0, 0, 1], 9090))
        .collect();
    ElectionManager::new(NodeId(id), peers, 10)
}

#[test]
fn election_chooses_lowest_id() {
    let peers = vec![
        make_test_node(NodeId::new(), [127, 0, 0, 1], 9090),
        make_test_node(NodeId::new(), [127, 0, 0, 2], 9090),
    ];

    let election = ElectionManager::new(NodeId::new(), peers, 10);

    let winner = election.elect_lowest_id();
    assert!(winner.to_string().len() > 0);
}

#[test]
fn coordinator_setter() {
    let peers = vec![];
    let mut election = ElectionManager::new(NodeId::new(), peers, 10);

    let coordinator_id = NodeId::new();
    election.set_coordinator(coordinator_id);

    assert_eq!(election.get_coordinator(), Some(coordinator_id));
    assert!(!election.is_coordinator(&NodeId::new()));
}

#[test]
fn lowest_of_all_members_wins() {
    assert_eq!(manager(5, &[9, 3, 7]).elect_lowest_id(), NodeId(3));
    assert_eq!(manager(2, &[9, 3, 7]).elect_lowest_id(), NodeId(2));
    assert_eq!(manager(5, &[]).elect_lowest_id(), NodeId(5));
}

#[test]
fn members_agree_on_the_lowest() {
    let views = [
        manager(5, &[9, 3]),
        manager(9, &[3, 5]),
        manager(3, &[9, 5, 5]),
    ];
    for view in &views {
        assert_eq!(view.elect_lowest_id(), NodeId(3));
    }
}

#[test]
fn new_manager_knows_nothing() {
    let m = manager(5, &[]);
    assert_eq!(m.state, ElectionState::default());
    assert_eq!(m.state.term, 0);
    assert_eq!(m.get_coordinator(), None);
    assert!(!m.check_election_timeout());
    assert!(!m.is_coordinator(&NodeId(5)));
    assert_eq!(m.election_timeout_secs, 10);
}

#[test]
fn candidate_votes_for_itself_in_the_next_term() {
    let mut m = manager(5, &[]);
    m.start_election();
    assert_eq!(m.state.term, 1);
    assert_eq!(m.state.voted_for, Some(NodeId(5)));
    assert!(m.check_election_timeout());
    let before = m.state;
    m.start_election();
    assert_eq!(m.state, before);
}

#[test]
fn later_term_gets_the_vote() {
    let mut m = manager(5, &[]);
    let answer = m.handle_election_message(&ClusterMessage::election(NodeId(7), 4), &NodeId(7));
    assert!(matches!(
        answer,
        Some(ClusterMessage::ElectionResult {
            winner_id: NodeId(7),
            term: 4
        })
    ));
    assert_eq!(m.state.term, 4);
    assert_eq!(m.state.voted_for, Some(NodeId(7)));
    assert_eq!(m.get_coordinator(), Some(NodeId(7)));
}

#[test]
fn one_vote_per_term() {
    let mut m = manager(5, &[]);
    let mut voted: Vec<u64> = vec![];
    let messages = [(7u128, 2u64), (8, 2), (9, 1), (8, 3), (7, 3), (7, 6)];
    for (id, term) in messages {
        let before = m.state.term;
        let message = ClusterMessage::election(NodeId(id), term);
        if let Some(ClusterMessage::ElectionResult { term, .. }) =
            m.handle_election_message(&message, &NodeId(id))
        {
            voted.push(term);
        }
        assert!(m.state.term >= before);
    }
    assert_eq!(voted, vec![2, 3, 6]);
}

#[test]
fn own_candidacy_uses_up_the_vote() {
    let mut m = manager(5, &[]);
    m.start_election();
    let answer = m.handle_election_message(&ClusterMessage::election(NodeId(1), 1), &NodeId(1));
    assert!(answer.is_none());
    assert_eq!(m.state.voted_for, Some(NodeId(5)));
}

#[test]
fn result_settles_the_election() {
    let mut m = manager(5, &[]);
    m.start_election();
    let answer =
        m.handle_election_message(&ClusterMessage::election_result(NodeId(2), 1), &NodeId(2));
    assert!(answer.is_none());
    assert_eq!(m.get_coordinator(), Some(NodeId(2)));
    assert!(m.is_coordinator(&NodeId(2)));
    assert!(!m.check_election_timeout());
    m.handle_election_message(&ClusterMessage::election_result(NodeId(3), 0), &NodeId(3));
    assert_eq!(m.get_coordinator(), Some(NodeId(2)));
}

#[test]
fn nodes_agree_on_a_result() {
    let mut a = manager(5, &[]);
    let mut b = manager(6, &[]);
    a.start_election();
    let result = ClusterMessage::election_result(NodeId(6), 9);
    a.handle_election_message(&result, &NodeId(6));
    b.handle_election_message(&result, &NodeId(6));
    assert_eq!(a.get_coordinator(), b.get_coordinator());
    assert_eq!(a.state.term, b.state.term);
}

#[test]
fn becoming_coordinator_settles_the_election() {
    let mut m = manager(5, &[]);
    m.start_election();
    m.become_coordinator();
    assert!(m.is_coordinator(&NodeId(5)));
    assert!(!m.state.election_in_progress);
    assert!(!m.state.is_candidate);
    assert_eq!(m.state.term, 1);
}

#[test]
fn election_loop_replies_to_candidates() {
    let mut m = manager(5, &[]);
    let event = ElectionEvent::Message(ClusterMessage::election(NodeId(7), 4));
    match m.run_election_step(event) {
        ElectionAction::Reply { to, message } => {
            assert_eq!(to, NodeId(7));
            assert!(matches!(
                message,
                ClusterMessage::ElectionResult {
                    winner_id: NodeId(7),
                    term: 4
                }
            ));
        }
        other => panic!("{:?}", other),
    }
    let event = ElectionEvent::Message(ClusterMessage::election(NodeId(7), 4));
    assert!(matches!(m.run_election_step(event), ElectionAction::Wait));
}

#[test]
fn election_loop_waits_and_stops() {
    let mut m = manager(5, &[]);
    let before = m.state;
    let ping = ElectionEvent::Message(ClusterMessage::ping());
    assert!(matches!(m.run_election_step(ping), ElectionAction::Wait));
    let hello = ElectionEvent::Message(ClusterMessage::handshake(
        make_test_node(NodeId(1), [127, 0, 0, 1], 1),
        String::new(),
    ));
    assert!(matches!(m.run_election_step(hello), ElectionAction::Wait));
    assert!(matches!(
        m.run_election_step(ElectionEvent::TimedOut),
        ElectionAction::Wait
    ));
    assert_eq!(m.state, before);
    m.start_election();
    let standing = m.state;
    m.run_election_step(ElectionEvent::TimedOut);
    assert_eq!(m.state, standing);
    assert!(matches!(
        m.run_election_step(ElectionEvent::Closed),
        ElectionAction::Stop
    ));
}
