use zeroclaw_cluster::cluster::node::{NodeAddr, NodeId, NodeInfo, NodeStatus};
use zeroclaw_cluster::config::ClusterNodeRole;

fn addr(ip: [u8; 4], port: u16) -> NodeAddr {
    NodeAddr::V4 {
        ip: u32::from_be_bytes(ip),
        port,
    }
}

fn node(id: u128, now: u64) -> NodeInfo {
    NodeInfo::new_at(
        NodeId(id),
        "n".to_string(),
        addr([127, 0, 0, 1], 9090),
        ClusterNodeRole::Worker,
        vec!["memory".to_string(), "chat".to_string()],
        now,
    )
}

#[test]
fn node_id_display() {
    let id = NodeId::new();
    let s = id.to_string();
    assert!(!s.is_empty());
    assert_eq!(id, s.parse().unwrap());
}

#[test]
fn node_info_ord_by_id() {
    let id1 = NodeId::new();
    let id2 = NodeId::new();

    let node1 = NodeInfo::new(
        id1,
        "node1".into(),
        addr([127, 0, 0, 1], 9090),
        ClusterNodeRole::Worker,
        vec![],
    );
    let node2 = NodeInfo::new(
        id2,
        "node2".into(),
        addr([127, 0, 0, 2], 9090),
        ClusterNodeRole::Worker,
        vec![],
    );

    let (min, max) = if node1 <= node2 {
        (&node1, &node2)
    } else {
        (&node2, &node1)
    };

    assert_ne!(min.id, max.id);
    assert!(min.id < max.id);
}

#[test]
fn id_is_written_in_five_groups() {
    let id = NodeId(0x67e55044_10b1_426f_9247_bb680e5fe0c8);
    assert_eq!(id.to_string(), "67e55044-10b1-426f-9247-bb680e5fe0c8");
    assert_eq!(
        NodeId(0).to_string(),
        "00000000-0000-0000-0000-000000000000"
    );
}

#[test]
fn id_is_read_in_every_written_form() {
    let id = NodeId(0x67e55044_10b1_426f_9247_bb680e5fe0c8);
    let forms = [
        "67e55044-10b1-426f-9247-bb680e5fe0c8",
        "67e5504410b1426f9247bb680e5fe0c8",
        "67E55044-10B1-426F-9247-BB680E5FE0C8",
        "{67e55044-10b1-426f-9247-bb680e5fe0c8}",
        "urn:uuid:67e55044-10b1-426f-9247-bb680e5fe0c8",
        "URN:UUID:67e55044-10b1-426f-9247-bb680e5fe0c8",
    ];
    for form in forms {
        assert_eq!(NodeId::from_string(form), Some(id));
        assert_eq!(NodeId::parse(form), Ok(id));
    }
}

#[test]
fn other_texts_are_no_ids() {
    let texts = [
        "",
        "node",
        "67e55044-10b1-426f-9247-bb680e5fe0c",
        "67e55044-10b1-426f-9247-bb680e5fe0cg",
        "67e5504410b1-426f-9247-bb680e5fe0c8-",
        "(67e55044-10b1-426f-9247-bb680e5fe0c8)",
        "67e55044-10b1-426f-9247-bb680e5fe0c8 ",
    ];
    for text in texts {
        assert_eq!(NodeId::from_string(text), None);
        let reason = uuid::Uuid::parse_str(text).unwrap_err();
        assert_eq!(NodeId::parse(text).unwrap_err().reason, reason);
        assert_eq!(text.parse::<NodeId>().unwrap_err().reason, reason);
    }
}

#[test]
fn random_ids_are_marked_and_differ() {
    for id in [NodeId::new(), NodeId::default()] {
        assert_eq!((id.0 >> 76) & 0xf, 4);
        assert_eq!((id.0 >> 62) & 0x3, 2);
    }
    assert_ne!(NodeId::new(), NodeId::new());
}

#[test]
fn reason_why_a_text_is_no_id_is_kept() {
    let short = NodeId::parse("12").unwrap_err().reason;
    let letter = NodeId::parse("67e55044-10b1-426f-9247-bb680e5fe0cg")
        .unwrap_err()
        .reason;
    assert_ne!(short, letter);
    assert!(!short.to_string().is_empty());
}

#[test]
fn id_of_bits_has_these_bits() {
    assert_eq!(NodeId::from_u128(7), NodeId(7));
    assert!(NodeId::from_u128(7) < NodeId::from_u128(8));
}

#[test]
fn new_node_is_connecting() {
    let info = node(5, 1234);
    assert_eq!(info.id, NodeId(5));
    assert_eq!(info.name, "n");
    assert_eq!(info.status, NodeStatus::Connecting);
    assert_eq!(info.status, NodeStatus::default());
    assert_eq!(info.last_heartbeat_secs, 1234);
    assert_eq!(info.load_score, 0);
    assert!(!info.is_healthy());
}

#[test]
fn clock_is_read_for_a_new_node() {
    let info = NodeInfo::new(
        NodeId(1),
        "n".to_string(),
        NodeAddr::unspecified(),
        ClusterNodeRole::Worker,
        vec![],
    );
    // 2020-01-01, long past.
    assert!(info.last_heartbeat_secs > 1_577_836_800);
}

#[test]
fn heartbeat_makes_a_node_healthy() {
    let mut info = node(5, 10);
    info.update_heartbeat_at(20);
    assert!(info.is_healthy());
    assert_eq!(info.last_heartbeat_secs, 20);
    let mut info = node(5, 10);
    info.update_heartbeat();
    assert!(info.is_healthy());
    assert!(info.last_heartbeat_secs > 1_577_836_800);
}

#[test]
fn capabilities_are_compared_whole() {
    let info = node(5, 10);
    assert!(info.has_capability("memory"));
    assert!(info.has_capability("chat"));
    assert!(!info.has_capability("mem"));
    assert!(!info.has_capability(""));
}

#[test]
fn nodes_are_equal_by_id_alone() {
    let mut a = node(5, 10);
    a.name = "other".to_string();
    assert!(a == node(5, 99));
    assert!(a != node(6, 10));
    assert!(a < node(6, 0));
    assert_eq!(a.cmp(&node(4, 10)), std::cmp::Ordering::Greater);
    assert_eq!(a.cmp(&node(5, 99)), std::cmp::Ordering::Equal);
    assert_eq!(a.partial_cmp(&node(6, 10)), Some(std::cmp::Ordering::Less));
}

#[test]
fn clone_of_a_node_keeps_everything() {
    let mut a = node(5, 10);
    a.update_heartbeat_at(11);
    let b = a.clone();
    assert_eq!(b.id, a.id);
    assert_eq!(b.name, a.name);
    assert_eq!(b.addr, a.addr);
    assert_eq!(b.role, a.role);
    assert_eq!(b.capabilities, a.capabilities);
    assert_eq!(b.status, a.status);
    assert_eq!(b.last_heartbeat_secs, 11);
}
