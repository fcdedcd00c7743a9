use zeroclaw_cluster::cluster::node::{NodeAddr, NodeId, NodeInfo};
use zeroclaw_cluster::cluster::{
    create_cluster, resolve_node_name, run_cluster, Cluster, ClusterError, ClusterMessage,
    LaunchStep,
};
use zeroclaw_cluster::config::{ClusterConfig, ClusterNodeRole};

fn enabled() -> ClusterConfig {
    let mut config = ClusterConfig::default();
    config.enabled = true;
    config.node_name = Some("test-node".to_string());
    config
}

fn peer(id: u128, name: &str) -> NodeInfo {
    NodeInfo::new_at(
        NodeId(id),
        name.to_string(),
        NodeAddr::unspecified(),
        ClusterNodeRole::Worker,
        vec![],
        0,
    )
}

fn cluster(id: u128) -> Cluster {
    Cluster::new_with(&enabled(), NodeId(id), "me".to_string())
        .ok()
        .unwrap()
}

#[test]
fn cluster_disabled_returns_none() {
    let config = ClusterConfig::default();
    let res = create_cluster(&config).unwrap();
    assert!(res.is_none());
}

#[test]
fn cluster_enabled_creates_instance() {
    let mut config = ClusterConfig::default();
    config.enabled = true;
    config.node_name = Some("test-node".into());

    let cluster = create_cluster(&config).unwrap().unwrap();

    assert_eq!(cluster.node_name(), "test-node");
    assert!(!cluster.is_coordinator());
    assert_eq!(cluster.peer_count(), 0);
}

#[test]
fn disabled_cluster_cannot_be_made() {
    let config = ClusterConfig::default();
    let error = Cluster::new(&config).err().unwrap();
    assert_eq!(error, ClusterError::NotEnabled);
    assert_eq!(error.to_string(), "Cluster is not enabled");
    let error = Cluster::new_with(&config, NodeId(1), "me".to_string())
        .err()
        .unwrap();
    assert_eq!(error, ClusterError::NotEnabled);
}

#[test]
fn new_cluster_has_its_configured_role() {
    let mut config = enabled();
    let cluster = Cluster::new(&config).ok().unwrap();
    assert_eq!(cluster.role(), ClusterNodeRole::Worker);
    assert!(!cluster.is_running());
    assert!(cluster.get_coordinator().is_none());
    assert_eq!((cluster.node_id().0 >> 76) & 0xf, 4);
    config.static_role = Some(ClusterNodeRole::Coordinator);
    assert!(Cluster::new(&config).ok().unwrap().is_coordinator());
}

#[test]
fn unnamed_cluster_goes_by_the_machine() {
    let mut config = enabled();
    config.node_name = None;
    let name = Cluster::new(&config).ok().unwrap().node_name().to_string();
    match hostname::get() {
        Ok(host) => assert_eq!(name, host.to_string_lossy().to_string()),
        Err(_) => assert!(name.starts_with("node-")),
    }
}

#[test]
fn name_is_resolved_in_order() {
    let some = |s: &str| Some(s.to_string());
    assert_eq!(resolve_node_name(&some("a"), some("b"), 0), "a");
    assert_eq!(resolve_node_name(&None, some("b"), 0), "b");
    assert_eq!(
        resolve_node_name(&None, None, 0xabc45044_10b1_426f_9247_bb680e5fe0c8),
        "node-abc"
    );
}

#[test]
fn peers_are_added_and_removed() {
    let mut c = cluster(1);
    c.add_peer(peer(2, "first"));
    c.add_peer(peer(3, "other"));
    c.add_peer(peer(2, "second"));
    assert_eq!(c.peer_count(), 2);
    let mut names: Vec<String> = c.get_peers().iter().map(|p| p.name.clone()).collect();
    names.sort();
    assert_eq!(names, vec!["other".to_string(), "second".to_string()]);
    c.remove_peer(&NodeId(2));
    c.remove_peer(&NodeId(9));
    assert_eq!(c.peer_count(), 1);
    assert_eq!(c.get_peers()[0].id, NodeId(3));
}

#[test]
fn coordinator_is_a_known_peer() {
    let mut c = cluster(1);
    c.set_coordinator(NodeId(2));
    assert!(!c.is_coordinator());
    assert!(c.get_coordinator().is_none());
    c.add_peer(peer(2, "boss"));
    assert_eq!(c.get_coordinator().unwrap().name, "boss");
    c.set_coordinator(NodeId(1));
    assert!(c.is_coordinator());
    assert!(c.get_coordinator().is_none());
}

#[test]
fn broadcast_is_in_the_name_of_the_node() {
    let (from, message) = cluster(1).broadcast(ClusterMessage::ping());
    assert_eq!(from, NodeId(1));
    assert!(matches!(message, ClusterMessage::Ping));
}

#[test]
fn cluster_runs_when_told() {
    let mut c = cluster(1);
    c.set_running(true);
    assert!(c.is_running());
    c.set_running(false);
    assert!(!c.is_running());
}

#[test]
fn disabled_cluster_does_not_run() {
    assert!(run_cluster(&ClusterConfig::default()).is_none());
}

#[test]
fn running_takes_all_steps_in_order() {
    let mut config = enabled();
    config.bind_host = "10.0.0.1".to_string();
    config.bind_port = 65535;
    config.peers = vec!["10.0.0.2:1".to_string()];
    config.discovery_enabled = true;
    config.discovery_interval_secs = 7;
    config.heartbeat_interval_secs = 6;
    let steps = run_cluster(&config).unwrap();
    assert_eq!(
        format!("{:?}", steps),
        "[StartServer(\"10.0.0.1:65535\"), ConnectPeers([\"10.0.0.2:1\"]), StartDiscovery(7), \
         MarkRunning, StartHeartbeat(6), AwaitShutdown, MarkStopped]"
    );
}

#[test]
fn running_leaves_out_what_is_not_configured() {
    let mut config = enabled();
    config.bind_host = "h".to_string();
    config.bind_port = 0;
    let steps = run_cluster(&config).unwrap();
    assert_eq!(steps.len(), 5);
    assert!(matches!(&steps[0], LaunchStep::StartServer(addr) if addr == "h:0"));
    assert!(matches!(steps[1], LaunchStep::MarkRunning));
    assert!(matches!(steps[2], LaunchStep::StartHeartbeat(5)));
    config.discovery_enabled = true;
    let steps = run_cluster(&config).unwrap();
    assert!(matches!(steps[1], LaunchStep::StartDiscovery(1)));
}

#[test]
fn clone_of_a_configuration_keeps_everything() {
    let mut config = enabled();
    config.peers = vec!["p".to_string()];
    config.node_token = Some("t".to_string());
    config.capabilities = vec!["c".to_string()];
    config.discovery_port = Some(4);
    assert_eq!(format!("{:?}", config.clone()), format!("{:?}", config));
}
