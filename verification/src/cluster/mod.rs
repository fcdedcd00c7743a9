//! A node of a cluster: who it is, whom it knows, and what running it takes.

pub mod discovery;
pub mod election;
pub mod message;
pub mod node;
pub mod peers;
pub mod ws_transport;

pub use election::ElectionManager;
pub use message::{ClusterMessage, StateQueryType, TaskType};
pub use node::{NodeId, NodeInfo, NodeStatus};
pub use ws_transport::WsClusterTransport;

use vstd::prelude::*;

use crate::config::{clone_texts, ClusterConfig, ClusterConfigView, ClusterNodeRole};
use crate::outside;
use crate::outside::{host_name, uuid_to_text};
use crate::text;
use crate::text::{host_port, joined, prefix};
use node::{draw_uuid, drawn_uuid, NodeInfoView};
use peers::PeerTable;

verus! {

/// Why a cluster cannot be made.
#[derive(Debug, Clone, Copy, PartialEq, Eq, Structural)]
pub enum ClusterError {
    NotEnabled,
}

impl ClusterError {
    /// The error in words.
    pub fn to_string(&self) -> (words: String)
        ensures
            words@ == "Cluster is not enabled"@,
    {
        match self {
            ClusterError::NotEnabled => "Cluster is not enabled".to_string(),
        }
    }
}

/// This node as a member of a cluster.
pub struct Cluster {
    node_id: NodeId,
    node_name: String,
    config: ClusterConfig,
    role: ClusterNodeRole,
    coordinator_id: Option<NodeId>,
    peers: PeerTable,
    running: bool,
}

/// A [`Cluster`] with its text as characters.
pub struct ClusterView {
    pub node_id: NodeId,
    pub node_name: Seq<char>,
    pub config: ClusterConfigView,
    pub role: ClusterNodeRole,
    pub coordinator_id: Option<NodeId>,
    pub peers: Map<u128, NodeInfoView>,
    pub running: bool,
}

impl View for Cluster {
    type V = ClusterView;

    closed spec fn view(&self) -> ClusterView {
        ClusterView {
            node_id: self.node_id,
            node_name: self.node_name@,
            config: self.config@,
            role: self.role,
            coordinator_id: self.coordinator_id,
            peers: self.peers@,
            running: self.running,
        }
    }
}

/// The name that a node goes by: the configured one, else the machine's, else `node-`
/// and the first digits of an id.
pub open spec fn resolved_name(
    configured: Option<Seq<char>>,
    host: Option<Seq<char>>,
    fallback: u128,
) -> Seq<char> {
    match configured {
        Some(name) => name,
        None => match host {
            Some(name) => name,
            None => ("node-"@ + text::uuid_hyphenated(fallback)).take(8),
        },
    }
}

/// Whether `host` is what the machine gives for its name.
pub closed spec fn machine_gives(host: Option<Seq<char>>) -> bool {
    exists|name: Option<String>| #[trigger]
        call_ensures(host_name, (), name) && name.deep_view() == host
}

/// Whether a new node may go by `name`: the configured one where there is one, else the
/// machine's, else one made of a random id.
pub open spec fn names_node(configured: Option<Seq<char>>, name: Seq<char>) -> bool {
    match configured {
        Some(configured) => name == configured,
        None => exists|host: Option<Seq<char>>, fallback: u128|
            {
                &&& machine_gives(host)
                &&& outside::is_random_uuid(fallback)
                &&& drawn_uuid(fallback)
                &&& name == #[trigger] resolved_name(None, host, fallback)
            },
    }
}

impl ClusterView {
    /// A node before it has met any other. Without a role it is a worker.
    pub open spec fn fresh(
        config: ClusterConfigView,
        node_id: NodeId,
        node_name: Seq<char>,
    ) -> ClusterView {
        ClusterView {
            node_id,
            node_name,
            config,
            role: match config.static_role {
                Some(role) => role,
                None => ClusterNodeRole::Worker,
            },
            coordinator_id: None,
            peers: Map::empty(),
            running: false,
        }
    }

    /// The node once it knows who coordinates: if that is itself, its role changes.
    pub open spec fn coordinated_by(self, id: NodeId) -> ClusterView {
        ClusterView {
            coordinator_id: Some(id),
            role: if id == self.node_id {
                ClusterNodeRole::Coordinator
            } else {
                self.role
            },
            ..self
        }
    }

    pub open spec fn with_peer(self, info: NodeInfoView) -> ClusterView {
        ClusterView { peers: self.peers.insert(info.id.0, info), ..self }
    }

    pub open spec fn without_peer(self, id: NodeId) -> ClusterView {
        ClusterView { peers: self.peers.remove(id.0), ..self }
    }
}

/// The name of a node for which the configuration may have one, the machine may have
/// one, and `fallback` is an id to fall back on.
pub fn resolve_node_name(configured: &Option<String>, host: Option<String>, fallback: u128) -> (name:
    String)
    ensures
        name@ == resolved_name(configured.deep_view(), host.deep_view(), fallback),
{
    match configured {
        Some(name) => name.clone(),
        None => match host {
            Some(name) => name,
            None => {
                proof {
                    reveal_strlit("node-");
                }
                prefix(&joined("node-", &uuid_to_text(fallback)), 8)
            },
        },
    }
}

impl Cluster {
    pub closed spec fn wf(&self) -> bool {
        self.peers.wf()
    }

    /// A new node, under a random id, where the configuration enables the cluster. It
    /// takes the configured name, and without one that of the machine or a random one.
    pub fn new(config: &ClusterConfig) -> (cluster: Result<Self, ClusterError>)
        ensures
            cluster is Ok <==> config@.enabled,
            cluster matches Ok(cluster) ==> {
                &&& cluster.wf()
                &&& outside::is_random_uuid(cluster@.node_id.0) && drawn_uuid(cluster@.node_id.0)
                &&& cluster@ == ClusterView::fresh(
                    config@,
                    cluster@.node_id,
                    cluster@.node_name,
                )
                &&& names_node(config@.node_name, cluster@.node_name)
            },
            cluster matches Err(error) ==> error == ClusterError::NotEnabled,
    {
        if !config.enabled {
            return Err(ClusterError::NotEnabled);
        }
        let node_id = NodeId::new();
        let node_name = match &config.node_name {
            Some(name) => name.clone(),
            None => {
                let host = host_name();
                let fallback: u128 = draw_uuid();
                let ghost seen = host.deep_view();
                let name = resolve_node_name(&None, host, fallback);
                assert(machine_gives(seen));
                assert(name@ == resolved_name(None, seen, fallback));
                name
            },
        };
        Self::new_with(config, node_id, node_name)
    }

    /// A new node under the given id and name, where the configuration enables the
    /// cluster.
    pub fn new_with(config: &ClusterConfig, node_id: NodeId, node_name: String) -> (cluster: Result<
        Self,
        ClusterError,
    >)
        ensures
            cluster is Ok <==> config@.enabled,
            cluster matches Ok(cluster) ==> cluster.wf() && cluster@ == ClusterView::fresh(
                config@,
                node_id,
                node_name@,
            ),
            cluster matches Err(error) ==> error == ClusterError::NotEnabled,
    {
        if !config.enabled {
            return Err(ClusterError::NotEnabled);
        }
        Ok(
            Cluster {
                node_id,
                node_name,
                config: config.clone(),
                role: match config.static_role {
                    Some(role) => role,
                    None => ClusterNodeRole::Worker,
                },
                coordinator_id: None,
                peers: PeerTable::new(),
                running: false,
            },
        )
    }

    pub fn node_id(&self) -> (id: NodeId)
        ensures
            id == self@.node_id,
    {
        self.node_id
    }

    pub fn node_name(&self) -> (name: &str)
        ensures
            name@ == self@.node_name,
    {
        self.node_name.as_str()
    }

    pub fn role(&self) -> (role: ClusterNodeRole)
        ensures
            role == self@.role,
    {
        self.role
    }

    pub fn is_coordinator(&self) -> (is: bool)
        ensures
            is == (self@.role == ClusterNodeRole::Coordinator),
    {
        self.role == ClusterNodeRole::Coordinator
    }

    /// Every peer, in no particular order.
    pub fn get_peers(&self) -> (list: Vec<NodeInfo>)
        requires
            self.wf(),
        ensures
            peers::lists(list.deep_view(), self@.peers),
    {
        self.peers.list()
    }

    pub fn peer_count(&self) -> (n: usize)
        ensures
            n == self@.peers.len(),
    {
        self.peers.len()
    }

    /// The coordinator, where it is known and a peer.
    pub fn get_coordinator(&self) -> (found: Option<NodeInfo>)
        ensures
            found.deep_view() == (match self@.coordinator_id {
                Some(id) => if self@.peers.contains_key(id.0) {
                    Some(self@.peers[id.0])
                } else {
                    None
                },
                None => None,
            }),
    {
        match self.coordinator_id {
            Some(id) => self.peers.get(&id),
            None => None,
        }
    }

    /// Adds a peer, in place of what was known of it.
    pub fn add_peer(&mut self, info: NodeInfo)
        requires
            old(self).wf(),
        ensures
            final(self).wf(),
            final(self)@ == old(self)@.with_peer(info@),
    {
        self.peers.insert(info);
    }

    pub fn remove_peer(&mut self, node_id: &NodeId)
        requires
            old(self).wf(),
        ensures
            final(self).wf(),
            final(self)@ == old(self)@.without_peer(*node_id),
    {
        self.peers.remove(node_id);
    }

    /// Notes who coordinates. A node that coordinates itself takes the role.
    pub fn set_coordinator(&mut self, node_id: NodeId)
        requires
            old(self).wf(),
        ensures
            final(self).wf(),
            final(self)@ == old(self)@.coordinated_by(node_id),
    {
        self.coordinator_id = Some(node_id);
        if node_id == self.node_id {
            self.role = ClusterNodeRole::Coordinator;
        }
    }

    /// What listeners get when this node has something to say: the message in its name.
    pub fn broadcast(&self, message: ClusterMessage) -> (envelope: (NodeId, ClusterMessage))
        ensures
            envelope == (self@.node_id, message),
    {
        (self.node_id, message)
    }

    pub fn is_running(&self) -> (running: bool)
        ensures
            running == self@.running,
    {
        self.running
    }

    pub fn set_running(&mut self, running: bool)
        requires
            old(self).wf(),
        ensures
            final(self).wf(),
            final(self)@ == (ClusterView { running, ..old(self)@ }),
    {
        self.running = running;
    }
}

/// A new node as [`Cluster::new`] makes it, and none where the cluster is disabled.
pub fn create_cluster(config: &ClusterConfig) -> (cluster: Result<Option<Cluster>, ClusterError>)
    ensures
        cluster is Ok,
        cluster matches Ok(Some(_)) <==> config@.enabled,
        cluster matches Ok(Some(cluster)) ==> {
            &&& cluster.wf()
            &&& outside::is_random_uuid(cluster@.node_id.0) && drawn_uuid(cluster@.node_id.0)
            &&& cluster@ == ClusterView::fresh(config@, cluster@.node_id, cluster@.node_name)
            &&& names_node(config@.node_name, cluster@.node_name)
        },
{
    if !config.enabled {
        return Ok(None);
    }
    match Cluster::new(config) {
        Ok(cluster) => Ok(Some(cluster)),
        Err(error) => Err(error),
    }
}

/// A step of running a node.
#[derive(Debug)]
pub enum LaunchStep {
    /// Accept connections at this address.
    StartServer(String),
    /// Connect to these addresses.
    ConnectPeers(Vec<String>),
    /// Look for peers, at intervals of this many seconds.
    StartDiscovery(u64),
    MarkRunning,
    /// Beat, at intervals of this many seconds.
    StartHeartbeat(u64),
    /// Wait until the node is to stop.
    AwaitShutdown,
    MarkStopped,
}

/// A [`LaunchStep`] with its text as characters.
pub enum LaunchStepView {
    StartServer(Seq<char>),
    ConnectPeers(Seq<Seq<char>>),
    StartDiscovery(u64),
    MarkRunning,
    StartHeartbeat(u64),
    AwaitShutdown,
    MarkStopped,
}

impl View for LaunchStep {
    type V = LaunchStepView;

    open spec fn view(&self) -> LaunchStepView {
        match self {
            LaunchStep::StartServer(addr) => LaunchStepView::StartServer(addr@),
            LaunchStep::ConnectPeers(addrs) => LaunchStepView::ConnectPeers(addrs.deep_view()),
            LaunchStep::StartDiscovery(secs) => LaunchStepView::StartDiscovery(*secs),
            LaunchStep::MarkRunning => LaunchStepView::MarkRunning,
            LaunchStep::StartHeartbeat(secs) => LaunchStepView::StartHeartbeat(*secs),
            LaunchStep::AwaitShutdown => LaunchStepView::AwaitShutdown,
            LaunchStep::MarkStopped => LaunchStepView::MarkStopped,
        }
    }
}

impl DeepView for LaunchStep {
    type V = LaunchStepView;

    open spec fn deep_view(&self) -> LaunchStepView {
        self@
    }
}

/// The larger of two numbers.
pub open spec fn at_least(n: u64, least: u64) -> u64 {
    if n < least {
        least
    } else {
        n
    }
}

/// The steps of running a node, in order. Peers are connected to where some are
/// configured, and looked for, at most once in a second, where that is enabled. A
/// heartbeat comes at most every five seconds.
pub open spec fn launch_steps(config: ClusterConfigView) -> Seq<LaunchStepView> {
    let server = seq![
        LaunchStepView::StartServer(
            text::host_port_text(config.bind_host, text::decimal(config.bind_port as nat)),
        ),
    ];
    let static_peers = if config.peers.len() > 0 {
        seq![LaunchStepView::ConnectPeers(config.peers)]
    } else {
        Seq::empty()
    };
    let discovery = if config.discovery_enabled {
        seq![LaunchStepView::StartDiscovery(at_least(config.discovery_interval_secs, 1))]
    } else {
        Seq::empty()
    };
    let rest = seq![
        LaunchStepView::MarkRunning,
        LaunchStepView::StartHeartbeat(at_least(config.heartbeat_interval_secs, 5)),
        LaunchStepView::AwaitShutdown,
        LaunchStepView::MarkStopped,
    ];
    server + static_peers + discovery + rest
}

/// What running a node takes, and nothing where the cluster is disabled.
pub fn run_cluster(config: &ClusterConfig) -> (steps: Option<Vec<LaunchStep>>)
    ensures
        steps.deep_view() == (if config@.enabled {
            Some(launch_steps(config@))
        } else {
            None
        }),
{
    if !config.enabled {
        return None;
    }
    let mut steps: Vec<LaunchStep> = Vec::new();
    steps.push(LaunchStep::StartServer(host_port(&config.bind_host, config.bind_port)));
    if config.peers.len() > 0 {
        steps.push(LaunchStep::ConnectPeers(clone_texts(&config.peers)));
    }
    if config.discovery_enabled {
        let interval: u64 = if config.discovery_interval_secs < 1 {
            1
        } else {
            config.discovery_interval_secs
        };
        steps.push(LaunchStep::StartDiscovery(interval));
    }
    steps.push(LaunchStep::MarkRunning);
    let interval: u64 = if config.heartbeat_interval_secs < 5 {
        5
    } else {
        config.heartbeat_interval_secs
    };
    steps.push(LaunchStep::StartHeartbeat(interval));
    steps.push(LaunchStep::AwaitShutdown);
    steps.push(LaunchStep::MarkStopped);
    assert(steps.deep_view() =~= launch_steps(config@));
    Some(steps)
}

/// A peer that was added is known as it was given, and no other peer is affected.
pub proof fn law_added_peer_is_known(cluster: ClusterView, info: NodeInfoView, other: NodeId)
    ensures
        cluster.with_peer(info).peers.contains_key(info.id.0),
        cluster.with_peer(info).peers[info.id.0] == info,
        other != info.id ==> cluster.with_peer(info).peers.contains_key(other.0)
            == cluster.peers.contains_key(other.0) && (cluster.peers.contains_key(other.0)
            ==> cluster.with_peer(info).peers[other.0] == cluster.peers[other.0]),
{
}

/// Adding a peer twice leaves one, known as it was given last.
pub proof fn law_peer_is_known_once(cluster: ClusterView, first: NodeInfoView, second: NodeInfoView)
    requires
        first.id == second.id,
    ensures
        cluster.with_peer(first).with_peer(second) == cluster.with_peer(second),
{
    assert(cluster.with_peer(first).with_peer(second).peers =~= cluster.with_peer(second).peers);
}

/// Removing a peer undoes adding it, where it was not known before.
pub proof fn law_removing_undoes_adding(cluster: ClusterView, info: NodeInfoView)
    requires
        !cluster.peers.contains_key(info.id.0),
    ensures
        cluster.with_peer(info).without_peer(info.id) == cluster,
{
    assert(cluster.with_peer(info).without_peer(info.id).peers =~= cluster.peers);
}

/// A node that is told that it coordinates has the role; told of another, it keeps the
/// one it has.
pub proof fn law_coordinator_takes_the_role(cluster: ClusterView, id: NodeId)
    ensures
        cluster.coordinated_by(id).coordinator_id == Some(id),
        id == cluster.node_id ==> cluster.coordinated_by(id).role == ClusterNodeRole::Coordinator,
        id != cluster.node_id ==> cluster.coordinated_by(id).role == cluster.role,
{
}

/// What is seen of a node is what it holds.
proof fn law_node_is_seen_as_it_is(cluster: Cluster)
    ensures
        cluster@.node_id == cluster.node_id,
        cluster@.node_name == cluster.node_name@,
        cluster@.config == cluster.config@,
        cluster@.role == cluster.role,
        cluster@.coordinator_id == cluster.coordinator_id,
        cluster@.peers == cluster.peers@,
        cluster@.running == cluster.running,
{
}

/// A node without a configured name asks the machine for its own, and goes by it, whole.
pub(crate) proof fn law_machine_is_asked_for_its_name(config: ClusterConfig, cluster: Cluster)
    requires
        config.node_name is None,
        call_ensures(Cluster::new, (&config,), Ok(cluster)),
    ensures
        exists|host: Option<String>| #[trigger]
            call_ensures(host_name, (), host) && (host matches Some(name) ==> cluster@.node_name
                == name@),
{
    let (host, fallback) = choose|host: Option<Seq<char>>, fallback: u128|
        {
            &&& machine_gives(host)
            &&& outside::is_random_uuid(fallback)
            &&& drawn_uuid(fallback)
            &&& cluster@.node_name == #[trigger] resolved_name(None, host, fallback)
        };
    let asked = choose|asked: Option<String>| #[trigger]
        call_ensures(host_name, (), asked) && asked.deep_view() == host;
    assert(call_ensures(host_name, (), asked));
}

} // verus!
