use zeroclaw_cluster::cluster::node::{NodeAddr, NodeId, NodeInfo};
use zeroclaw_cluster::cluster::{ClusterMessage, StateQueryType, TaskType};
use zeroclaw_cluster::config::ClusterNodeRole;

fn info() -> NodeInfo {
    NodeInfo::new_at(
        NodeId(1),
        "test".to_string(),
        NodeAddr::unspecified(),
        ClusterNodeRole::Worker,
        vec!["test".to_string()],
        0,
    )
}

#[test]
fn memory_work_requires_memory() {
    assert_eq!(TaskType::MemoryRecall.required_capability(), Some("memory"));
    assert_eq!(TaskType::MemoryStore.required_capability(), Some("memory"));
    assert_eq!(TaskType::Chat.required_capability(), None);
    assert_eq!(TaskType::Agentic.required_capability(), None);
    assert_eq!(
        TaskType::Custom("memory".to_string()).required_capability(),
        None
    );
}

#[test]
fn messages_hold_what_they_are_made_of() {
    match ClusterMessage::handshake(info(), "token".to_string()) {
        ClusterMessage::Handshake { node_info, token } => {
            assert_eq!(node_info.id, NodeId(1));
            assert_eq!(token, "token");
        }
        other => panic!("{:?}", other),
    }
    assert!(matches!(
        ClusterMessage::handshake_ack(info()),
        ClusterMessage::HandshakeAck { node_info } if node_info.name == "test"
    ));
    assert!(matches!(
        ClusterMessage::handshake_nack("no"),
        ClusterMessage::HandshakeNack { reason } if reason == "no"
    ));
    assert!(matches!(
        ClusterMessage::handshake_nack("never".to_string()),
        ClusterMessage::HandshakeNack { reason } if reason == "never"
    ));
    assert!(matches!(
        ClusterMessage::heartbeat(NodeId(3), 9),
        ClusterMessage::Heartbeat {
            node_id: NodeId(3),
            load_score: 9
        }
    ));
    assert!(matches!(
        ClusterMessage::election(NodeId(3), 4),
        ClusterMessage::Election {
            candidate_id: NodeId(3),
            term: 4
        }
    ));
    assert!(matches!(
        ClusterMessage::election_result(NodeId(3), 4),
        ClusterMessage::ElectionResult {
            winner_id: NodeId(3),
            term: 4
        }
    ));
    assert!(matches!(ClusterMessage::ping(), ClusterMessage::Ping));
    assert!(matches!(ClusterMessage::pong(), ClusterMessage::Pong));
    assert!(matches!(
        ClusterMessage::peer_left(NodeId(8)),
        ClusterMessage::PeerLeft { node_id: NodeId(8) }
    ));
    assert!(matches!(
        ClusterMessage::peer_joined(info()),
        ClusterMessage::PeerJoined { node_info } if node_info.id == NodeId(1)
    ));
}

#[test]
fn task_request_has_a_random_id() {
    let first = ClusterMessage::task_request(TaskType::Chat, "hi".to_string(), NodeId(1));
    let second = ClusterMessage::task_request(TaskType::Chat, "hi".to_string(), NodeId(1));
    match (first, second) {
        (
            ClusterMessage::TaskRequest {
                id: a,
                task_type,
                payload,
                source,
                reply_target,
            },
            ClusterMessage::TaskRequest { id: b, .. },
        ) => {
            assert_ne!(a, b);
            assert_eq!((a >> 76) & 0xf, 4);
            assert_eq!(task_type, TaskType::Chat);
            assert_eq!(payload, "hi");
            assert_eq!(source, NodeId(1));
            assert_eq!(reply_target, None);
        }
        other => panic!("{:?}", other),
    }
    assert!(matches!(
        ClusterMessage::task_request_with(7, TaskType::Agentic, "p".to_string(), NodeId(2)),
        ClusterMessage::TaskRequest { id: 7, .. }
    ));
}

#[test]
fn task_responses() {
    match ClusterMessage::task_response(5, "done".to_string(), NodeId(1)) {
        ClusterMessage::TaskResponse {
            id,
            result,
            source,
            error,
        } => {
            assert_eq!((id, source), (5, NodeId(1)));
            assert_eq!(result, "done");
            assert_eq!(error, None);
        }
        other => panic!("{:?}", other),
    }
    match ClusterMessage::task_response_error(5, "broken".to_string(), NodeId(1)) {
        ClusterMessage::TaskResponse { result, error, .. } => {
            assert_eq!(result, "");
            assert_eq!(error, Some("broken".to_string()));
        }
        other => panic!("{:?}", other),
    }
}

#[test]
fn delegation_has_a_random_id() {
    match ClusterMessage::delegate_cross_node(
        "agent".to_string(),
        "prompt".to_string(),
        Some("context".to_string()),
        NodeId(1),
        Some(NodeId(2)),
    ) {
        ClusterMessage::DelegateCrossNode {
            id,
            agent_name,
            prompt,
            context,
            source,
            target,
        } => {
            assert_eq!((id >> 62) & 0x3, 2);
            assert_eq!(agent_name, "agent");
            assert_eq!(prompt, "prompt");
            assert_eq!(context, Some("context".to_string()));
            assert_eq!(source, NodeId(1));
            assert_eq!(target, Some(NodeId(2)));
        }
        other => panic!("{:?}", other),
    }
}

#[test]
fn clones_of_messages_are_the_same() {
    let messages = vec![
        ClusterMessage::handshake(info(), "t".to_string()),
        ClusterMessage::handshake_ack(info()),
        ClusterMessage::handshake_nack("r"),
        ClusterMessage::heartbeat(NodeId(1), 2),
        ClusterMessage::election(NodeId(1), 2),
        ClusterMessage::election_result(NodeId(1), 2),
        ClusterMessage::task_request_with(
            1,
            TaskType::Custom("c".to_string()),
            "p".to_string(),
            NodeId(1),
        ),
        ClusterMessage::task_response_error(1, "e".to_string(), NodeId(1)),
        ClusterMessage::delegate_cross_node_with(
            1,
            "a".to_string(),
            "p".to_string(),
            Some("c".to_string()),
            NodeId(1),
            None,
        ),
        ClusterMessage::DelegateResponse {
            id: 1,
            result: "r".to_string(),
            source: NodeId(1),
            error: None,
        },
        ClusterMessage::StateQuery {
            query_type: StateQueryType::Full,
        },
        ClusterMessage::StateSync {
            agent_count: 1,
            memory_count: 2,
        },
        ClusterMessage::PeerList {
            peers: vec![info(), info()],
        },
        ClusterMessage::peer_joined(info()),
        ClusterMessage::peer_left(NodeId(1)),
        ClusterMessage::ping(),
        ClusterMessage::pong(),
    ];
    for message in &messages {
        assert_eq!(format!("{:?}", message.clone()), format!("{:?}", message));
    }
}
