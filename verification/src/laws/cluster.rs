//! What comes of calls on a node of a cluster, and of running one.

use vstd::prelude::*;

use crate::cluster::message::ClusterMessage;
use crate::cluster::node::{drawn_uuid, NodeId, NodeInfo};
use crate::cluster::{
    create_cluster, machine_gives, resolve_node_name, run_cluster, Cluster, ClusterError,
    LaunchStep,
};
use crate::config::{ClusterConfig, ClusterNodeRole};
use crate::laws::message::same_node;
use crate::laws::text::{decimal_is_number, is_number};
use crate::text;
use crate::text::uuid_hyphenated;

verus! {

/// A node goes by its configured name, whole; without one by the machine's, whole; and
/// without either by `node-` and the first three characters of the text of an id.
pub proof fn law_name_is_the_first_there_is(
    configured: Option<String>,
    host: Option<String>,
    fallback: u128,
    id_text: String,
    name: String,
)
    requires
        call_ensures(NodeId::to_string, (&NodeId(fallback),), id_text),
        call_ensures(resolve_node_name, (&configured, host, fallback), name),
    ensures
        configured matches Some(given) ==> name@ == given@,
        configured is None ==> (host matches Some(given) ==> name@ == given@),
        configured is None && host is None ==> {
            &&& name@.len() == 8
            &&& name@.take(5) == "node-"@
            &&& name@.skip(5) == id_text@.take(3)
        },
{
    reveal_strlit("node-");
    if configured is None && host is None {
        assert(id_text@ == uuid_hyphenated(fallback));
        assert(name@.take(5) =~= "node-"@);
        assert(name@.skip(5) =~= id_text@.take(3));
    }
}

/// What can be asked of a node.
pub open spec fn answers(
    cluster: Cluster,
    id: NodeId,
    name: &str,
    role: ClusterNodeRole,
    coordinates: bool,
    count: usize,
    running: bool,
    coordinator: Option<NodeInfo>,
) -> bool {
    &&& call_ensures(Cluster::node_id, (&cluster,), id)
    &&& call_ensures(Cluster::node_name, (&cluster,), name)
    &&& call_ensures(Cluster::role, (&cluster,), role)
    &&& call_ensures(Cluster::is_coordinator, (&cluster,), coordinates)
    &&& call_ensures(Cluster::peer_count, (&cluster,), count)
    &&& call_ensures(Cluster::is_running, (&cluster,), running)
    &&& call_ensures(Cluster::get_coordinator, (&cluster,), coordinator)
}

/// A node can be made exactly where the cluster is enabled. It has the id and the name it
/// is given and the configured role, or is a worker; it knows nobody and does not run.
pub proof fn law_new_node_of_a_cluster(
    config: ClusterConfig,
    id: NodeId,
    name: String,
    made: Result<Cluster, ClusterError>,
    said_id: NodeId,
    said_name: &str,
    role: ClusterNodeRole,
    coordinates: bool,
    count: usize,
    running: bool,
    coordinator: Option<NodeInfo>,
)
    requires
        call_ensures(Cluster::new_with, (&config, id, name), made),
        made matches Ok(cluster) ==> answers(
            cluster,
            said_id,
            said_name,
            role,
            coordinates,
            count,
            running,
            coordinator,
        ),
    ensures
        made is Ok <==> config.enabled,
        made is Err ==> made == Err::<Cluster, ClusterError>(ClusterError::NotEnabled),
        made matches Ok(cluster) ==> {
            &&& cluster@.config == config@
            &&& said_id == id
            &&& said_name@ == name@
            &&& config.static_role matches Some(given) ==> role == given
            &&& config.static_role is None ==> role == ClusterNodeRole::Worker
            &&& coordinates <==> role == ClusterNodeRole::Coordinator
            &&& count == 0
            &&& !running
            &&& coordinator is None
        },
{
}

/// A node made of a configuration alone has a drawn id, and goes by the configured name or
/// by what the machine gives.
pub proof fn law_node_made_of_a_configuration(
    config: ClusterConfig,
    made: Result<Cluster, ClusterError>,
    created: Result<Option<Cluster>, ClusterError>,
    id: NodeId,
    name: &str,
    role: ClusterNodeRole,
    coordinates: bool,
    count: usize,
    running: bool,
    coordinator: Option<NodeInfo>,
)
    requires
        call_ensures(Cluster::new, (&config,), made),
        call_ensures(create_cluster, (&config,), created),
        (made matches Ok(cluster) && answers(
            cluster,
            id,
            name,
            role,
            coordinates,
            count,
            running,
            coordinator,
        )) || (created matches Ok(Some(cluster)) && answers(
            cluster,
            id,
            name,
            role,
            coordinates,
            count,
            running,
            coordinator,
        )),
    ensures
        config.enabled,
        drawn_uuid(id.0),
        config.node_name matches Some(given) ==> name@ == given@,
        config.node_name is None ==> exists|host: Option<Seq<char>>| #[trigger]
            machine_gives(host) && (host matches Some(given) ==> name@ == given) && (host is None
                ==> name@.len() == 8 && name@.take(5) == "node-"@),
        config.static_role matches Some(given) ==> role == given,
        config.static_role is None ==> role == ClusterNodeRole::Worker,
        coordinates <==> role == ClusterNodeRole::Coordinator,
        count == 0,
        !running,
        coordinator is None,
{
    reveal_strlit("node-");
    if config.node_name is None {
        let (host, fallback) = choose|host: Option<Seq<char>>, fallback: u128|
            {
                &&& machine_gives(host)
                &&& crate::outside::is_random_uuid(fallback)
                &&& drawn_uuid(fallback)
                &&& name@ == #[trigger] crate::cluster::resolved_name(None, host, fallback)
            };
        assert(machine_gives(host));
        if host is None {
            assert(name@.take(5) =~= "node-"@);
        }
    }
}

/// Where the cluster is disabled no node is made; asking for one is an error only where
/// one is asked for without fail.
pub proof fn law_disabled_cluster_makes_no_node(
    config: ClusterConfig,
    made: Result<Cluster, ClusterError>,
    created: Result<Option<Cluster>, ClusterError>,
    words: String,
)
    requires
        call_ensures(Cluster::new, (&config,), made),
        call_ensures(create_cluster, (&config,), created),
        call_ensures(ClusterError::to_string, (&ClusterError::NotEnabled,), words),
    ensures
        made is Ok <==> config.enabled,
        made is Err ==> made == Err::<Cluster, ClusterError>(ClusterError::NotEnabled),
        created matches Ok(node) && (node is Some <==> config.enabled),
        words@ == "Cluster is not enabled"@,
{
}

/// A peer that was added stands in the list as it was given, once; those that stood there
/// before under another id stand there still, and nobody else does.
pub proof fn law_added_peer_stands_in_the_list(
    cluster: &mut Cluster,
    info: NodeInfo,
    before: Vec<NodeInfo>,
    after: Vec<NodeInfo>,
)
    requires
        call_ensures(Cluster::get_peers, (&*old(cluster),), before),
        call_ensures(Cluster::add_peer, (cluster, info), ()),
        call_ensures(Cluster::get_peers, (&*final(cluster),), after),
    ensures
        exists|i: int| 0 <= i < after.len() && same_node(#[trigger] after[i], info),
        forall|j: int|
            0 <= j < before.len() && (#[trigger] before[j]).id != info.id ==> exists|i: int|
                0 <= i < after.len() && same_node(#[trigger] after[i], before[j]),
        forall|i: int|
            0 <= i < after.len() && !same_node(#[trigger] after[i], info) ==> exists|j: int|
                0 <= j < before.len() && same_node(#[trigger] before[j], after[i]),
        forall|i: int, j: int|
            0 <= i < j < after.len() ==> (#[trigger] after[i]).id != (#[trigger] after[j]).id,
{
    let seen = after.deep_view();
    let had = before.deep_view();
    let peers = final(cluster)@.peers;
    let known = old(cluster)@.peers;
    assert(seen.len() == after.len() && had.len() == before.len());
    assert(peers.contains_key(info.id.0));
    let at = choose|i: int| 0 <= i < seen.len() && #[trigger] seen[i] == peers[info.id.0];
    assert(seen[at] == after[at]@);
    assert(same_node(after[at], info));
    assert forall|j: int|
        0 <= j < before.len() && (#[trigger] before[j]).id != info.id implies exists|i: int|
        0 <= i < after.len() && same_node(#[trigger] after[i], before[j]) by {
        assert(had[j] == before[j]@);
        assert(known.contains_key(had[j].id.0));
        let k = had[j].id.0;
        assert(peers.contains_key(k));
        let i = choose|i: int| 0 <= i < seen.len() && #[trigger] seen[i] == peers[k];
        assert(seen[i] == after[i]@);
        assert(same_node(after[i], before[j]));
    }
    assert forall|i: int|
        0 <= i < after.len() && !same_node(#[trigger] after[i], info) implies exists|j: int|
        0 <= j < before.len() && same_node(#[trigger] before[j], after[i]) by {
        assert(seen[i] == after[i]@);
        let k = seen[i].id.0;
        assert(peers.contains_key(seen[i].id.0) && peers[k] == seen[i]);
        assert(k != info.id.0);
        assert(known.contains_key(k));
        let j = choose|j: int| 0 <= j < had.len() && #[trigger] had[j] == known[k];
        assert(had[j] == before[j]@);
        assert(same_node(before[j], after[i]));
    }
    assert forall|i: int, j: int| 0 <= i < j < after.len() implies (#[trigger] after[i]).id != (
    #[trigger] after[j]).id by {
        assert(seen[i].id != seen[j].id);
    }
}

/// A peer that was removed is not in the list any more; all others stay, as they were.
pub proof fn law_removed_peer_leaves_the_list(
    cluster: &mut Cluster,
    id: NodeId,
    before: Vec<NodeInfo>,
    after: Vec<NodeInfo>,
    count: usize,
)
    requires
        call_ensures(Cluster::get_peers, (&*old(cluster),), before),
        call_ensures(Cluster::remove_peer, (cluster, &id), ()),
        call_ensures(Cluster::get_peers, (&*final(cluster),), after),
        call_ensures(Cluster::peer_count, (&*final(cluster),), count),
    ensures
        forall|i: int| 0 <= i < after.len() ==> (#[trigger] after[i]).id != id,
        forall|j: int|
            0 <= j < before.len() && (#[trigger] before[j]).id != id ==> exists|i: int|
                0 <= i < after.len() && same_node(#[trigger] after[i], before[j]),
        count == after.len(),
{
    let seen = after.deep_view();
    let had = before.deep_view();
    let peers = final(cluster)@.peers;
    let known = old(cluster)@.peers;
    assert(seen.len() == after.len() && had.len() == before.len());
    assert forall|i: int| 0 <= i < after.len() implies (#[trigger] after[i]).id != id by {
        assert(seen[i] == after[i]@);
        assert(peers.contains_key(seen[i].id.0));
    }
    assert forall|j: int|
        0 <= j < before.len() && (#[trigger] before[j]).id != id implies exists|i: int|
        0 <= i < after.len() && same_node(#[trigger] after[i], before[j]) by {
        assert(had[j] == before[j]@);
        let k = had[j].id.0;
        assert(known.contains_key(had[j].id.0));
        assert(peers.contains_key(k));
        let i = choose|i: int| 0 <= i < seen.len() && #[trigger] seen[i] == peers[k];
        assert(seen[i] == after[i]@);
        assert(same_node(after[i], before[j]));
    }
}

/// Adding and removing peers leaves a node what it is.
pub proof fn law_peers_do_not_change_the_node(
    added: &mut Cluster,
    removed: &mut Cluster,
    info: NodeInfo,
    id: NodeId,
)
    requires
        call_ensures(Cluster::add_peer, (added, info), ()),
        call_ensures(Cluster::remove_peer, (removed, &id), ()),
    ensures
        same_cluster_node(*final(added), *old(added)),
        final(added)@.running == old(added)@.running,
        final(added)@.role == old(added)@.role,
        final(added)@.coordinator_id == old(added)@.coordinator_id,
        same_cluster_node(*final(removed), *old(removed)),
        final(removed)@.running == old(removed)@.running,
        final(removed)@.role == old(removed)@.role,
        final(removed)@.coordinator_id == old(removed)@.coordinator_id,
{
}

/// Whether two accounts are of one node under one configuration.
pub open spec fn same_cluster_node(a: Cluster, b: Cluster) -> bool {
    &&& a@.node_id == b@.node_id
    &&& a@.node_name == b@.node_name
    &&& a@.config == b@.config
}

/// Whoever is said to coordinate is found as the coordinator exactly if it is a peer, and
/// then as it stands in the list; the node itself takes the role exactly if it is the one,
/// and otherwise keeps the role it has.
pub proof fn law_coordinator_is_the_one_that_was_set(
    cluster: &mut Cluster,
    id: NodeId,
    own: NodeId,
    list: Vec<NodeInfo>,
    found: Option<NodeInfo>,
    role_before: ClusterNodeRole,
    role: ClusterNodeRole,
    coordinates: bool,
)
    requires
        call_ensures(Cluster::node_id, (&*old(cluster),), own),
        call_ensures(Cluster::role, (&*old(cluster),), role_before),
        call_ensures(Cluster::set_coordinator, (cluster, id), ()),
        final(cluster).wf(),
        call_ensures(Cluster::get_peers, (&*final(cluster),), list),
        call_ensures(Cluster::get_coordinator, (&*final(cluster),), found),
        call_ensures(Cluster::role, (&*final(cluster),), role),
        call_ensures(Cluster::is_coordinator, (&*final(cluster),), coordinates),
    ensures
        (exists|i: int| 0 <= i < list.len() && (#[trigger] list[i]).id == id) ==> found is Some,
        found matches Some(node) ==> exists|i: int|
            0 <= i < list.len() && same_node(#[trigger] list[i], node),
        found is Some <==> final(cluster)@.peers.contains_key(id.0),
        found matches Some(node) ==> node@ == final(cluster)@.peers[id.0],
        id == own ==> role == ClusterNodeRole::Coordinator,
        id != own ==> role == role_before,
        coordinates <==> role == ClusterNodeRole::Coordinator,
        final(cluster)@.peers == old(cluster)@.peers,
        final(cluster)@.running == old(cluster)@.running,
        same_cluster_node(*final(cluster), *old(cluster)),
{
    let seen = list.deep_view();
    let peers = final(cluster)@.peers;
    assert(seen.len() == list.len());
    assert forall|i: int| 0 <= i < list.len() && (#[trigger] list[i]).id == id implies found
        is Some by {
        assert(seen[i] == list[i]@);
        assert(peers.contains_key(seen[i].id.0));
    }
    if let Some(node) = found {
        assert(peers.contains_key(id.0));
        let i = choose|i: int| 0 <= i < seen.len() && #[trigger] seen[i] == peers[id.0];
        assert(seen[i] == list[i]@);
        assert(same_node(list[i], node));
    }
}

/// A node runs as it was last told to, and is told nothing else by it; what it broadcasts
/// goes out as given and in its own name.
pub proof fn law_node_runs_as_told(
    cluster: &mut Cluster,
    running: bool,
    said: bool,
    own: NodeId,
    message: ClusterMessage,
    envelope: (NodeId, ClusterMessage),
)
    requires
        call_ensures(Cluster::set_running, (cluster, running), ()),
        call_ensures(Cluster::is_running, (&*final(cluster),), said),
        call_ensures(Cluster::node_id, (&*final(cluster),), own),
        call_ensures(Cluster::broadcast, (&*final(cluster), message), envelope),
    ensures
        said == running,
        envelope.0 == own,
        envelope.1 == message,
        final(cluster)@.peers == old(cluster)@.peers,
        final(cluster)@.role == old(cluster)@.role,
        final(cluster)@.coordinator_id == old(cluster)@.coordinator_id,
        same_cluster_node(*final(cluster), *old(cluster)),
{
}

/// A node is run exactly where the cluster is enabled. Running it takes, in this order:
/// the server at the configured host and port; every configured peer, as configured, if
/// there are any; discovery at the configured interval, or every second, if it is enabled;
/// the mark that it runs; a heartbeat at the configured interval, but at most every five
/// seconds; the wait for its end; and the mark that it has stopped.
pub proof fn law_running_takes_every_step(config: ClusterConfig, steps: Option<Vec<LaunchStep>>)
    requires
        call_ensures(run_cluster, (&config,), steps),
    ensures
        steps is Some <==> config.enabled,
        steps matches Some(steps) ==> {
            let c: int = if config.peers.len() > 0 {
                1
            } else {
                0
            };
            let d: int = if config.discovery_enabled {
                1
            } else {
                0
            };
            &&& steps.len() == 5 + c + d
            &&& steps[0] matches LaunchStep::StartServer(addr)
            &&& addr@.len() > config.bind_host@.len() + 1
            &&& addr@.take(config.bind_host@.len() as int) == config.bind_host@
            &&& addr@[config.bind_host@.len() as int] == ':'
            &&& is_number(
                addr@.skip(config.bind_host@.len() as int + 1),
                config.bind_port as int,
            )
            &&& c == 1 ==> (steps[1] matches LaunchStep::ConnectPeers(addrs) && addrs.len()
                == config.peers.len() && forall|i: int|
                0 <= i < addrs.len() ==> (#[trigger] addrs[i])@ == config.peers[i]@)
            &&& d == 1 ==> (steps[1 + c] matches LaunchStep::StartDiscovery(secs) && (
            config.discovery_interval_secs >= 1 ==> secs == config.discovery_interval_secs) && (
            config.discovery_interval_secs == 0 ==> secs == 1))
            &&& steps[1 + c + d] is MarkRunning
            &&& steps[2 + c + d] matches LaunchStep::StartHeartbeat(secs) && (
            config.heartbeat_interval_secs >= 5 ==> secs == config.heartbeat_interval_secs) && (
            config.heartbeat_interval_secs < 5 ==> secs == 5)
            &&& steps[3 + c + d] is AwaitShutdown
            &&& steps[4 + c + d] is MarkStopped
        },
{
    if let Some(steps) = steps {
        let seen = steps.deep_view();
        let c: int = if config.peers.len() > 0 {
            1
        } else {
            0
        };
        let d: int = if config.discovery_enabled {
            1
        } else {
            0
        };
        assert(config.peers.deep_view().len() == config.peers.len());
        assert(seen.len() == steps.len());
        assert(seen.len() == 5 + c + d);
        assert forall|i: int| 0 <= i < steps.len() implies seen[i] == (#[trigger] steps[i])@ by {}
        assert(steps[0]@ == seen[0]);
        decimal_is_number(config.bind_port as nat);
        if let LaunchStep::StartServer(addr) = steps[0] {
            assert(addr@.take(config.bind_host@.len() as int) =~= config.bind_host@);
            assert(addr@.skip(config.bind_host@.len() as int + 1) =~= text::decimal(
                config.bind_port as nat,
            ));
        }
        if c == 1 {
            assert(steps[1]@ == seen[1]);
            if let LaunchStep::ConnectPeers(addrs) = steps[1] {
                assert(addrs.deep_view().len() == addrs.len());
                assert forall|i: int| 0 <= i < addrs.len() implies (#[trigger] addrs[i])@
                    == config.peers[i]@ by {
                    assert(addrs.deep_view()[i] == config.peers.deep_view()[i]);
                }
            }
        }
        assert(steps[1 + c]@ == seen[1 + c]);
        assert(steps[1 + c + d]@ == seen[1 + c + d]);
        assert(steps[2 + c + d]@ == seen[2 + c + d]);
        assert(steps[3 + c + d]@ == seen[3 + c + d]);
        assert(steps[4 + c + d]@ == seen[4 + c + d]);
    }
}

/// Every configured address is connected to, and no other.
pub proof fn law_every_configured_peer_is_connected_to(
    config: ClusterConfig,
    steps: Vec<LaunchStep>,
    addr: Seq<char>,
)
    requires
        call_ensures(run_cluster, (&config,), Some(steps)),
    ensures
        (exists|i: int| 0 <= i < config.peers.len() && (#[trigger] config.peers[i])@ == addr)
            <==> exists|s: int|
            0 <= s < steps.len() && (#[trigger] steps[s] matches LaunchStep::ConnectPeers(addrs)
                && exists|j: int| 0 <= j < addrs.len() && (#[trigger] addrs[j])@ == addr),
{
    law_running_takes_every_step(config, Some(steps));
    if exists|i: int| 0 <= i < config.peers.len() && (#[trigger] config.peers[i])@ == addr {
        let i = choose|i: int| 0 <= i < config.peers.len() && (#[trigger] config.peers[i])@ == addr;
        if let LaunchStep::ConnectPeers(addrs) = steps[1] {
            assert(addrs[i]@ == addr);
        }
    }
    if exists|s: int|
        0 <= s < steps.len() && (#[trigger] steps[s] matches LaunchStep::ConnectPeers(addrs)
            && exists|j: int| 0 <= j < addrs.len() && (#[trigger] addrs[j])@ == addr) {
        let s = choose|s: int|
            0 <= s < steps.len() && (#[trigger] steps[s] matches LaunchStep::ConnectPeers(addrs)
                && exists|j: int| 0 <= j < addrs.len() && (#[trigger] addrs[j])@ == addr);
        assert(s == 1);
        if let LaunchStep::ConnectPeers(addrs) = steps[1] {
            let j = choose|j: int| 0 <= j < addrs.len() && (#[trigger] addrs[j])@ == addr;
            assert(config.peers[j]@ == addr);
        }
    }
}

} // verus!
