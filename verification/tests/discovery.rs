use zeroclaw_cluster::cluster::discovery::{Discovered, DiscoveryService, ListenEvent};
use zeroclaw_cluster::cluster::node::NodeAddr;
use zeroclaw_cluster::config::ClusterConfig;

const SEC: u128 = 1_000_000_000;

fn service(name: &str) -> DiscoveryService {
    let mut config = ClusterConfig::default();
    config.bind_host = "0.0.0.0".to_string();
    config.bind_port = 9090;
    config.node_token = Some("secret".to_string());
    config.discovery_interval_secs = 10;
    DiscoveryService::new(&config, name.to_string())
}

#[test]
fn discovery_takes_the_cluster_port_by_default() {
    let s = service("me");
    assert_eq!(s.discovery_port, 9090);
    assert_eq!(s.ws_port, 9090);
    assert_eq!(s.node_token, Some("secret".to_string()));
    assert_eq!(s.listen_addr(), "0.0.0.0:9090");
    let mut config = ClusterConfig::default();
    config.discovery_port = Some(7);
    let s = DiscoveryService::new(&config, "me".to_string());
    assert_eq!(s.discovery_port, 7);
    assert_eq!(s.discovery_interval_secs, 1);
}

#[test]
fn announcement_has_three_fields() {
    assert_eq!(service("me").announcement(), "ZEROCLAW|me|9090");
}

#[test]
fn broadcast_goes_to_the_network_of_the_socket() {
    assert_eq!(
        DiscoveryService::broadcast_addr(true),
        NodeAddr::V4 {
            ip: u32::from_be_bytes([127, 255, 255, 255]),
            port: 65535
        }
    );
    assert_eq!(
        DiscoveryService::broadcast_addr(false),
        NodeAddr::V4 {
            ip: u32::from_be_bytes([255, 255, 255, 255]),
            port: 65535
        }
    );
}

#[test]
fn announced_node_is_connected_to_once() {
    let mut s = service("me");
    let message = service("other").announcement();
    match s.handle_discovery_message(&message, "10.0.0.2", 0) {
        Discovered::New(addr) => assert_eq!(addr, "10.0.0.2:9090"),
        other => panic!("{:?}", other),
    }
    assert!(matches!(
        s.handle_discovery_message(&message, "10.0.0.2", SEC),
        Discovered::Known
    ));
    assert!(matches!(
        s.handle_discovery_message(&message, "10.0.0.3", SEC),
        Discovered::New(addr) if addr == "10.0.0.3:9090"
    ));
}

#[test]
fn own_announcement_is_ignored() {
    let mut s = service("me");
    let message = s.announcement();
    assert!(matches!(
        s.handle_discovery_message(&message, "10.0.0.2", 0),
        Discovered::Nothing
    ));
}

#[test]
fn other_messages_are_ignored() {
    let mut s = service("me");
    for message in ["", "ZEROCLAW", "ZEROCLAW|other", "zeroclaw|other|1", "|ZEROCLAW|other|1"] {
        assert!(matches!(
            s.handle_discovery_message(message, "10.0.0.2", 0),
            Discovered::Nothing
        ));
    }
}

#[test]
fn further_fields_are_allowed() {
    let mut s = service("me");
    assert!(matches!(
        s.handle_discovery_message("ZEROCLAW|other|80|more|", "10.0.0.2", 0),
        Discovered::New(addr) if addr == "10.0.0.2:80"
    ));
    assert!(matches!(
        s.handle_discovery_message("ZEROCLAW||", "10.0.0.2", 0),
        Discovered::New(addr) if addr == "10.0.0.2:"
    ));
}

#[test]
fn datagram_is_read_as_utf8() {
    let mut s = service("me");
    let bytes = "ZEROCLAW|n\u{f6}de|80".as_bytes().to_vec();
    assert!(matches!(
        s.handle_datagram(bytes, "10.0.0.2", 0),
        Discovered::New(addr) if addr == "10.0.0.2:80"
    ));
    let mut bytes = b"ZEROCLAW|other|81".to_vec();
    bytes.push(0xff);
    assert!(matches!(
        s.handle_datagram(bytes, "10.0.0.2", 0),
        Discovered::Nothing
    ));
}

#[test]
fn name_with_separator_is_not_heard_whole() {
    let mut s = service("me");
    let message = service("a|b").announcement();
    assert_eq!(message, "ZEROCLAW|a|b|9090");
    assert!(matches!(
        s.handle_discovery_message(&message, "10.0.0.2", 0),
        Discovered::New(addr) if addr == "10.0.0.2:b"
    ));
}

#[test]
fn silent_node_is_forgotten_and_found_again() {
    let mut s = service("me");
    assert_eq!(s.stale_timeout(), 30 * SEC);
    let message = service("other").announcement();
    s.handle_discovery_message(&message, "10.0.0.2", 5 * SEC);
    s.handle_discovery_message(&message, "10.0.0.3", 6 * SEC);
    s.cleanup_stale_nodes(35 * SEC, 30 * SEC);
    assert!(matches!(
        s.handle_discovery_message(&message, "10.0.0.2", 5 * SEC),
        Discovered::Known
    ));
    s.cleanup_stale_nodes(35 * SEC + 1, 30 * SEC);
    assert!(matches!(
        s.handle_discovery_message(&message, "10.0.0.3", 36 * SEC),
        Discovered::Known
    ));
    assert!(matches!(
        s.handle_discovery_message(&message, "10.0.0.2", 36 * SEC),
        Discovered::New(_)
    ));
}

#[test]
fn discovery_loop_takes_datagrams_and_cleans_up() {
    let mut s = service("me");
    let datagram = || ListenEvent::Datagram {
        bytes: b"ZEROCLAW|other|80".to_vec(),
        sender_ip: "10.0.0.2".to_string(),
    };
    assert!(matches!(
        s.listen_and_connect_step(datagram(), 0),
        Discovered::New(_)
    ));
    assert!(matches!(
        s.listen_and_connect_step(ListenEvent::Failed, 0),
        Discovered::Nothing
    ));
    assert!(matches!(
        s.listen_and_connect_step(ListenEvent::Tick, 30 * SEC),
        Discovered::Nothing
    ));
    assert!(matches!(
        s.listen_and_connect_step(datagram(), 0),
        Discovered::Known
    ));
    s.listen_and_connect_step(ListenEvent::Tick, 31 * SEC);
    assert!(matches!(
        s.listen_and_connect_step(datagram(), 31 * SEC),
        Discovered::New(_)
    ));
}
