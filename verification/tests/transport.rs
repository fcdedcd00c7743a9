use zeroclaw_cluster::cluster::node::{NodeAddr, NodeId, NodeInfo, NodeStatus};
use zeroclaw_cluster::cluster::ws_transport::{
    CoordinatorWait, WsAction, WsClusterTransport, WsError, WsEvent, WsPhase, WsSession,
};
use zeroclaw_cluster::cluster::ClusterMessage;
use zeroclaw_cluster::config::{ClusterConfig, ClusterNodeRole};

fn transport(id: u128, name: &str, token: Option<&str>) -> WsClusterTransport {
    let mut config = ClusterConfig::default();
    config.node_token = token.map(|t| t.to_string());
    config.capabilities = vec!["memory".to_string()];
    WsClusterTransport::new(
        &config,
        NodeId(id),
        name.to_string(),
        NodeAddr::V4 {
            ip: 0x7f000001,
            port: 9090,
        },
    )
}

fn peer(id: u128, role: ClusterNodeRole, now: u64) -> NodeInfo {
    NodeInfo::new_at(
        NodeId(id),
        "peer".to_string(),
        NodeAddr::unspecified(),
        role,
        vec![],
        now,
    )
}

fn ack_from(t: &mut WsClusterTransport, info: NodeInfo, now: u64) -> WsSession {
    let mut session = WsSession::new(false);
    let event = WsEvent::Message(ClusterMessage::handshake_ack(info));
    t.handle_websocket_at(&mut session, event, now);
    session
}

#[test]
fn new_transport_is_alone() {
    let t = transport(1, "a", Some("secret"));
    assert_eq!(t.node_id(), NodeId(1));
    assert_eq!(t.node_name(), "a");
    assert_eq!(t.node_token, "secret");
    assert_eq!(t.capabilities, vec!["memory".to_string()]);
    assert!(t.get_peers().is_empty());
    assert!(t.broadcast().is_empty());
    assert!(!t.is_running());
    assert_eq!(transport(1, "a", None).node_token, "");
}

#[test]
fn server_runs_until_disconnected() {
    let mut t = transport(1, "a", None);
    t.start_server();
    assert!(t.is_running());
    t.disconnect();
    assert!(!t.is_running());
}

#[test]
fn equal_tokens_connect() {
    let mut client = transport(1, "client", Some("secret"));
    let mut server = transport(2, "server", Some("secret"));
    let mut client_session = WsSession::new(false);
    let mut server_session = WsSession::new(true);

    assert!(server.opening_at(&server_session, 10).is_none());
    let hello = client.opening_at(&client_session, 10).unwrap();
    let reply = server.handle_websocket_at(&mut server_session, WsEvent::Message(hello), 20);
    let ack = match reply {
        WsAction::Reply(ack) => ack,
        other => panic!("{:?}", other),
    };
    let action = client.handle_websocket_at(&mut client_session, WsEvent::Message(ack), 30);
    assert!(matches!(action, WsAction::Wait));

    assert_eq!(server_session.phase, WsPhase::Greeted(NodeId(1)));
    assert_eq!(client_session.phase, WsPhase::Greeted(NodeId(2)));
    let at_server = server.get_peers();
    assert_eq!(at_server.len(), 1);
    assert_eq!(at_server[0].id, NodeId(1));
    assert_eq!(at_server[0].name, "client");
    assert_eq!(at_server[0].status, NodeStatus::Connecting);
    assert_eq!(at_server[0].last_heartbeat_secs, 20);
    assert_eq!(at_server[0].capabilities, vec!["memory".to_string()]);
    let at_client = client.get_peers();
    assert_eq!(at_client.len(), 1);
    assert_eq!(at_client[0].name, "server");
    assert_eq!(at_client[0].last_heartbeat_secs, 30);
}

#[test]
fn different_tokens_do_not_connect() {
    let mut client = transport(1, "client", Some("secret"));
    let mut server = transport(2, "server", Some("other"));
    let mut client_session = WsSession::new(false);
    let mut server_session = WsSession::new(true);
    let hello = client.opening(&client_session).unwrap();
    let reply = server.handle_websocket(&mut server_session, WsEvent::Message(hello));
    let nack = match reply {
        WsAction::Refuse { reply, error } => {
            assert_eq!(error.to_string(), "invalid cluster token");
            reply
        }
        other => panic!("{:?}", other),
    };
    match client.handle_websocket(&mut client_session, WsEvent::Message(nack)) {
        WsAction::Fail(error) => {
            assert_eq!(error.to_string(), "handshake rejected: invalid cluster token")
        }
        other => panic!("{:?}", other),
    }
    assert_eq!(server_session.phase, WsPhase::Closed);
    assert_eq!(client_session.phase, WsPhase::Closed);
    assert!(server.get_peers().is_empty());
    assert!(client.get_peers().is_empty());
}

#[test]
fn nothing_is_delivered_before_the_handshake() {
    let mut t = transport(1, "a", None);
    let mut session = WsSession::new(true);
    for event in [
        WsEvent::Message(ClusterMessage::ping()),
        WsEvent::Undecodable,
        WsEvent::Other,
    ] {
        let action = t.handle_websocket_at(&mut session, event, 0);
        assert!(matches!(action, WsAction::Wait));
        assert_eq!(session, WsSession::new(true));
    }
}

#[test]
fn side_that_opens_ignores_handshakes() {
    let mut t = transport(1, "a", None);
    let mut session = WsSession::new(false);
    let hello = ClusterMessage::handshake(peer(2, ClusterNodeRole::Worker, 0), String::new());
    let action = t.handle_websocket_at(&mut session, WsEvent::Message(hello), 0);
    assert!(matches!(action, WsAction::Wait));
    assert_eq!(session.phase, WsPhase::Handshaking);
    assert!(t.get_peers().is_empty());
}

#[test]
fn handshake_fails_when_the_socket_does() {
    let cases = vec![
        (WsEvent::Ended, "connection closed before handshake"),
        (WsEvent::Close, "connection closed"),
        (WsEvent::Failed("reset".to_string()), "websocket error: reset"),
    ];
    for (event, words) in cases {
        let mut t = transport(1, "a", None);
        let mut session = WsSession::new(true);
        match t.handle_websocket_at(&mut session, event, 0) {
            WsAction::Fail(error) => assert_eq!(error.to_string(), words),
            other => panic!("{:?}", other),
        }
        assert_eq!(session.phase, WsPhase::Closed);
    }
}

#[test]
fn linked_peer_is_heard_and_reached_until_it_is_lost() {
    let mut t = transport(1, "a", None);
    let mut session = ack_from(&mut t, peer(2, ClusterNodeRole::Worker, 0), 5);
    assert!(t.send_to(&NodeId(2)).is_err());
    assert_eq!(t.open_link(&mut session, 77), Some(NodeId(2)));
    assert_eq!(session.phase, WsPhase::Linked(NodeId(2)));
    assert_eq!(t.open_link(&mut session, 78), None);
    assert!(matches!(t.send_to(&NodeId(2)), Ok(77)));
    assert_eq!(t.broadcast(), vec![77]);

    let event = WsEvent::Message(ClusterMessage::ping());
    match t.handle_websocket_at(&mut session, event, 6) {
        WsAction::Deliver { source, message } => {
            assert_eq!(source, NodeId(2));
            assert!(matches!(message, ClusterMessage::Ping));
        }
        other => panic!("{:?}", other),
    }
    let action = t.handle_websocket_at(&mut session, WsEvent::Undecodable, 6);
    assert!(matches!(action, WsAction::Wait));

    let action = t.handle_websocket_at(&mut session, WsEvent::Ended, 7);
    assert!(matches!(action, WsAction::Finish));
    assert_eq!(session.phase, WsPhase::Closed);
    assert!(t.get_peers().is_empty());
    assert!(t.broadcast().is_empty());
    assert!(t.send_to(&NodeId(2)).is_err());
}

#[test]
fn broadcast_reaches_every_link_once() {
    let mut t = transport(1, "a", None);
    for id in [2u128, 3, 4] {
        let mut session = ack_from(&mut t, peer(id, ClusterNodeRole::Worker, 0), 5);
        t.open_link(&mut session, 100 + id as u64);
    }
    let mut links = t.broadcast();
    links.sort();
    assert_eq!(links, vec![102, 103, 104]);
}

#[test]
fn unknown_peer_is_not_found() {
    let t = transport(1, "a", None);
    match t.send_to(&NodeId(0x0a)) {
        Err(error) => assert_eq!(
            error.to_string(),
            "Peer 00000000-0000-0000-0000-00000000000a not found"
        ),
        Ok(link) => panic!("{}", link),
    }
}

#[test]
fn coordinator_is_found_among_peers() {
    let mut t = transport(1, "a", None);
    ack_from(&mut t, peer(2, ClusterNodeRole::Worker, 0), 5);
    assert!(t.get_coordinator().is_none());
    assert!(!t.is_coordinator());
    ack_from(&mut t, peer(3, ClusterNodeRole::Coordinator, 0), 5);
    assert_eq!(t.get_coordinator().unwrap().id, NodeId(3));
    assert!(t.is_coordinator());
}

#[test]
fn wait_for_a_coordinator_ends() {
    let mut t = transport(1, "a", None);
    assert!(matches!(
        t.wait_for_coordinator(0, 2),
        CoordinatorWait::Retry
    ));
    assert!(matches!(
        t.wait_for_coordinator(1_999_999_999, 2),
        CoordinatorWait::Retry
    ));
    match t.wait_for_coordinator(2_000_000_000, 2) {
        CoordinatorWait::TimedOut(error) => {
            assert_eq!(error.to_string(), "Timeout waiting for coordinator")
        }
        other => panic!("{:?}", other),
    }
    ack_from(&mut t, peer(3, ClusterNodeRole::Coordinator, 0), 5);
    assert!(matches!(
        t.wait_for_coordinator(0, 2),
        CoordinatorWait::Found(info) if info.id == NodeId(3)
    ));
    assert!(matches!(
        t.wait_for_coordinator(0, 0),
        CoordinatorWait::TimedOut(WsError::CoordinatorTimeout)
    ));
}

#[test]
fn heartbeat_names_the_node() {
    assert!(matches!(
        transport(9, "a", None).heartbeat(),
        ClusterMessage::Heartbeat {
            node_id: NodeId(9),
            load_score: 0
        }
    ));
}

#[test]
fn silent_peers_are_dropped() {
    let mut t = transport(1, "a", None);
    ack_from(&mut t, peer(2, ClusterNodeRole::Worker, 0), 100);
    ack_from(&mut t, peer(3, ClusterNodeRole::Worker, 0), 101);
    ack_from(&mut t, peer(4, ClusterNodeRole::Worker, 0), 500);
    t.drop_silent_peers_at(5, 115);
    let mut ids: Vec<u128> = t.get_peers().iter().map(|p| p.id.0).collect();
    ids.sort();
    assert_eq!(ids, vec![3, 4]);
    t.drop_silent_peers_at(5, 115);
    assert_eq!(t.get_peers().len(), 2);
    t.drop_silent_peers_at(0, 115);
    assert!(t.get_peers().is_empty());
}

#[test]
fn silent_peers_are_dropped_by_the_clock() {
    let mut t = transport(1, "a", None);
    ack_from(&mut t, peer(2, ClusterNodeRole::Worker, 0), 100);
    let mut session = WsSession::new(false);
    let event = WsEvent::Message(ClusterMessage::handshake_ack(peer(
        3,
        ClusterNodeRole::Worker,
        0,
    )));
    t.handle_websocket(&mut session, event);
    t.drop_silent_peers(1000);
    let ids: Vec<u128> = t.get_peers().iter().map(|p| p.id.0).collect();
    assert_eq!(ids, vec![3]);
}

#[test]
fn peer_is_reached_at_its_endpoint() {
    assert_eq!(
        WsClusterTransport::peer_url("10.0.0.1:9090"),
        "ws://10.0.0.1:9090/ws/cluster"
    );
}

#[test]
fn losing_one_peer_leaves_the_others() {
    let mut t = transport(1, "a", None);
    let mut first = ack_from(&mut t, peer(2, ClusterNodeRole::Worker, 0), 5);
    let mut second = ack_from(&mut t, peer(3, ClusterNodeRole::Worker, 0), 5);
    t.open_link(&mut first, 20);
    t.open_link(&mut second, 30);
    t.handle_websocket_at(&mut first, WsEvent::Failed("reset".to_string()), 6);
    assert!(t.send_to(&NodeId(2)).is_err());
    assert!(matches!(t.send_to(&NodeId(3)), Ok(30)));
    let ids: Vec<u128> = t.get_peers().iter().map(|p| p.id.0).collect();
    assert_eq!(ids, vec![3]);
}

#[test]
fn connection_leaves_no_trace() {
    let mut t = transport(1, "a", Some("s"));
    let mut session = WsSession::new(true);
    let hello = ClusterMessage::handshake(peer(2, ClusterNodeRole::Worker, 0), "s".to_string());
    t.handle_websocket_at(&mut session, WsEvent::Message(hello), 5);
    t.open_link(&mut session, 20);
    t.handle_websocket_at(&mut session, WsEvent::Close, 6);
    assert!(t.get_peers().is_empty());
    assert!(t.broadcast().is_empty());
    let action = t.handle_websocket_at(&mut session, WsEvent::Ended, 7);
    assert!(matches!(action, WsAction::Wait));
}

#[test]
fn server_ignores_acknowledgements() {
    let mut t = transport(1, "a", Some("secret"));
    let mut session = WsSession::new(true);
    let ack = ClusterMessage::handshake_ack(peer(2, ClusterNodeRole::Coordinator, 0));
    let action = t.handle_websocket_at(&mut session, WsEvent::Message(ack), 5);
    assert!(matches!(action, WsAction::Wait));
    assert_eq!(session, WsSession::new(true));
    assert!(t.get_peers().is_empty());
    assert_eq!(t.open_link(&mut session, 20), None);
    assert!(t.broadcast().is_empty());
    let action = t.handle_websocket_at(&mut session, WsEvent::Message(ClusterMessage::ping()), 6);
    assert!(matches!(action, WsAction::Wait));

    let hello = ClusterMessage::handshake(
        peer(2, ClusterNodeRole::Worker, 0),
        "secret".to_string(),
    );
    let action = t.handle_websocket_at(&mut session, WsEvent::Message(hello), 7);
    assert!(matches!(action, WsAction::Reply(_)));
    assert_eq!(session.phase, WsPhase::Greeted(NodeId(2)));
}

#[test]
fn server_hears_nobody_without_the_token() {
    let mut t = transport(1, "a", Some("secret"));
    let mut session = WsSession::new(true);
    let events = vec![
        ClusterMessage::ping(),
        ClusterMessage::handshake_ack(peer(2, ClusterNodeRole::Worker, 0)),
        ClusterMessage::heartbeat(NodeId(2), 0),
        ClusterMessage::handshake(peer(2, ClusterNodeRole::Worker, 0), "guess".to_string()),
        ClusterMessage::handshake_ack(peer(2, ClusterNodeRole::Worker, 0)),
        ClusterMessage::ping(),
    ];
    for message in events {
        let action = t.handle_websocket_at(&mut session, WsEvent::Message(message), 5);
        assert!(!matches!(action, WsAction::Deliver { .. }));
        assert_eq!(t.open_link(&mut session, 20), None);
        assert!(t.get_peers().is_empty());
        assert!(t.broadcast().is_empty());
    }
    assert_eq!(session.phase, WsPhase::Closed);
}
