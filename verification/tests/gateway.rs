use std::hash::{Hash, Hasher};

use zeroclaw_cluster::cluster::node::{NodeAddr, NodeId, NodeInfo};
use zeroclaw_cluster::cluster::ws_transport::{WsClusterTransport, WsEvent, WsPhase, WsSession};
use zeroclaw_cluster::cluster::ClusterMessage;
use zeroclaw_cluster::config::{ClusterConfig, ClusterNodeRole};
use zeroclaw_cluster::gateway::cluster_ws::{
    handle_ws_cluster, stable_node_id, Admission, ClusterQuery, ClusterSocket, SocketAction,
    SocketEvent,
};

fn config(token: Option<&str>) -> ClusterConfig {
    let mut config = ClusterConfig::default();
    config.enabled = true;
    config.node_token = token.map(|t| t.to_string());
    config
}

fn ask(config: &ClusterConfig, token: Option<&str>) -> Admission {
    handle_ws_cluster(
        config,
        &ClusterQuery {
            token: token.map(|t| t.to_string()),
        },
    )
}

fn socket() -> ClusterSocket {
    ClusterSocket::new_at(&config(None), NodeId(42), "gateway".to_string(), 7)
}

#[test]
fn stable_id_is_the_hash_of_the_name() {
    let mut hasher = std::collections::hash_map::DefaultHasher::new();
    "gateway".hash(&mut hasher);
    assert_eq!(stable_node_id("gateway"), NodeId(hasher.finish() as u128));
    assert_eq!(stable_node_id("gateway"), stable_node_id("gateway"));
    assert_ne!(stable_node_id("gateway"), stable_node_id("gatewax"));
    assert!(stable_node_id("").0 <= u64::MAX as u128);
}

#[test]
fn disabled_cluster_admits_nobody() {
    let mut config = config(Some("t"));
    config.enabled = false;
    for token in [None, Some("t"), Some("x")] {
        match ask(&config, token) {
            Admission::Refuse { status, body } => {
                assert_eq!(status, 403);
                assert_eq!(body, "Cluster is not enabled");
            }
            other => panic!("{:?}", other),
        }
    }
}

#[test]
fn wrong_token_is_unauthorized() {
    for token in [None, Some(""), Some("x"), Some("tt")] {
        match ask(&config(Some("t")), token) {
            Admission::Refuse { status, body } => {
                assert_eq!(status, 401);
                assert_eq!(body, "Invalid cluster token");
            }
            other => panic!("{:?}", other),
        }
    }
}

#[test]
fn right_token_is_let_in() {
    match ask(&config(Some("t")), Some("t")) {
        Admission::Upgrade { node_id, node_name } => {
            assert_eq!(node_name, "gateway");
            assert_eq!(node_id, stable_node_id("gateway"));
        }
        other => panic!("{:?}", other),
    }
    let mut named = config(None);
    named.node_name = Some("edge".to_string());
    match ask(&named, Some("anything")) {
        Admission::Upgrade { node_id, node_name } => {
            assert_eq!(node_name, "edge");
            assert_eq!(node_id, stable_node_id("edge"));
        }
        other => panic!("{:?}", other),
    }
}

#[test]
fn empty_token_matches_none() {
    assert!(matches!(
        ask(&config(Some("")), None),
        Admission::Upgrade { .. }
    ));
    assert!(matches!(
        ask(&config(Some("")), Some("x")),
        Admission::Refuse { status: 401, .. }
    ));
}

#[test]
fn gateway_coordinates_unless_told_otherwise() {
    assert_eq!(socket().self_info.role, ClusterNodeRole::Coordinator);
    assert_eq!(socket().self_info.last_heartbeat_secs, 7);
    assert!(socket().self_info.capabilities.is_empty());
    let mut worker = config(None);
    worker.static_role = Some(ClusterNodeRole::Worker);
    let socket = ClusterSocket::new(&worker, NodeId(1), "w".to_string());
    assert_eq!(socket.self_info.role, ClusterNodeRole::Worker);
}

#[test]
fn gateway_acknowledges_handshakes() {
    let info = NodeInfo::new_at(
        NodeId(5),
        "n".to_string(),
        NodeAddr::unspecified(),
        ClusterNodeRole::Worker,
        vec![],
        0,
    );
    let hello = ClusterMessage::handshake(info, "any".to_string());
    match socket().handle_cluster_socket(SocketEvent::Message(hello)) {
        SocketAction::Reply(ClusterMessage::HandshakeAck { node_info }) => {
            assert_eq!(node_info.id, NodeId(42));
            assert_eq!(node_info.name, "gateway");
            assert_eq!(node_info.role, ClusterNodeRole::Coordinator);
        }
        other => panic!("{:?}", other),
    }
}

#[test]
fn gateway_coordinates_its_nodes() {
    let mut client = WsClusterTransport::new(
        &ClusterConfig::default(),
        NodeId(1),
        "c".to_string(),
        NodeAddr::unspecified(),
    );
    let mut session = WsSession::new(false);
    let hello = client.opening_at(&session, 1).unwrap();
    let ack = match socket().handle_cluster_socket(SocketEvent::Message(hello)) {
        SocketAction::Reply(ack) => ack,
        other => panic!("{:?}", other),
    };
    client.handle_websocket_at(&mut session, WsEvent::Message(ack), 2);
    assert_eq!(session.phase, WsPhase::Greeted(NodeId(42)));
    assert_eq!(client.get_coordinator().unwrap().id, NodeId(42));
}

#[test]
fn gateway_answers_pings_and_ignores_the_rest() {
    let ping = SocketEvent::Message(ClusterMessage::ping());
    assert!(matches!(
        socket().handle_cluster_socket(ping),
        SocketAction::Reply(ClusterMessage::Pong)
    ));
    let pong = SocketEvent::Message(ClusterMessage::pong());
    assert!(matches!(
        socket().handle_cluster_socket(pong),
        SocketAction::Wait
    ));
    assert!(matches!(
        socket().handle_cluster_socket(SocketEvent::Other),
        SocketAction::Wait
    ));
    assert!(matches!(
        socket().handle_cluster_socket(SocketEvent::Closed),
        SocketAction::Close
    ));
}

fn delegate(context: Option<&str>) -> SocketAction {
    let message = ClusterMessage::delegate_cross_node_with(
        9,
        "agent".to_string(),
        "do it".to_string(),
        context.map(|c| c.to_string()),
        NodeId(1),
        None,
    );
    socket().handle_cluster_socket(SocketEvent::Message(message))
}

#[test]
fn delegation_goes_to_the_agent() {
    match delegate(None) {
        SocketAction::RunAgent { id, prompt } => {
            assert_eq!(id, 9);
            assert_eq!(prompt, "do it");
        }
        other => panic!("{:?}", other),
    }
    match delegate(Some("here")) {
        SocketAction::RunAgent { id, prompt } => {
            assert_eq!(id, 9);
            assert_eq!(prompt, "[Context]\nhere\n\n[Task]\ndo it");
        }
        other => panic!("{:?}", other),
    }
}

#[test]
fn delegation_is_answered_under_its_id() {
    match socket().delegate_response(9, Ok("done".to_string())) {
        ClusterMessage::DelegateResponse {
            id,
            result,
            source,
            error,
        } => {
            assert_eq!((id, source), (9, NodeId(42)));
            assert_eq!(result, "done");
            assert_eq!(error, None);
        }
        other => panic!("{:?}", other),
    }
    match socket().delegate_response(9, Err("broken".to_string())) {
        ClusterMessage::DelegateResponse {
            id, result, error, ..
        } => {
            assert_eq!(id, 9);
            assert_eq!(result, "");
            assert_eq!(error, Some("broken".to_string()));
        }
        other => panic!("{:?}", other),
    }
}
