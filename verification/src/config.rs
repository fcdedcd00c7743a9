//! The configuration of a cluster node.

use vstd::prelude::*;

verus! {

/// What a node does in the cluster.
#[derive(Debug, Clone, Copy, PartialEq, Eq, Hash, Structural)]
pub enum ClusterNodeRole {
    Coordinator,
    Worker,
}

/// How a node takes part in a cluster.
#[derive(Debug)]
pub struct ClusterConfig {
    /// Whether the node takes part in a cluster at all.
    pub enabled: bool,
    /// The node's name; without one it goes by the machine's.
    pub node_name: Option<String>,
    /// The role the node starts in.
    pub static_role: Option<ClusterNodeRole>,
    pub bind_host: String,
    pub bind_port: u16,
    /// The secret that nodes of one cluster share.
    pub node_token: Option<String>,
    /// What the node tells others that it can do.
    pub capabilities: Vec<String>,
    /// Addresses to connect to at the start.
    pub peers: Vec<String>,
    pub discovery_enabled: bool,
    /// The port that discovery listens on, if not `bind_port`.
    pub discovery_port: Option<u16>,
    pub discovery_interval_secs: u64,
    pub heartbeat_interval_secs: u64,
}

/// A [`ClusterConfig`] with its text as characters.
pub struct ClusterConfigView {
    pub enabled: bool,
    pub node_name: Option<Seq<char>>,
    pub static_role: Option<ClusterNodeRole>,
    pub bind_host: Seq<char>,
    pub bind_port: u16,
    pub node_token: Option<Seq<char>>,
    pub capabilities: Seq<Seq<char>>,
    pub peers: Seq<Seq<char>>,
    pub discovery_enabled: bool,
    pub discovery_port: Option<u16>,
    pub discovery_interval_secs: u64,
    pub heartbeat_interval_secs: u64,
}

impl View for ClusterConfig {
    type V = ClusterConfigView;

    open spec fn view(&self) -> ClusterConfigView {
        ClusterConfigView {
            enabled: self.enabled,
            node_name: self.node_name.deep_view(),
            static_role: self.static_role,
            bind_host: self.bind_host@,
            bind_port: self.bind_port,
            node_token: self.node_token.deep_view(),
            capabilities: self.capabilities.deep_view(),
            peers: self.peers.deep_view(),
            discovery_enabled: self.discovery_enabled,
            discovery_port: self.discovery_port,
            discovery_interval_secs: self.discovery_interval_secs,
            heartbeat_interval_secs: self.heartbeat_interval_secs,
        }
    }
}

impl ClusterConfigView {
    /// The configuration of a node of which nothing has been set.
    pub open spec fn unset() -> ClusterConfigView {
        ClusterConfigView {
            enabled: false,
            node_name: None,
            static_role: None,
            bind_host: Seq::empty(),
            bind_port: 0,
            node_token: None,
            capabilities: Seq::empty(),
            peers: Seq::empty(),
            discovery_enabled: false,
            discovery_port: None,
            discovery_interval_secs: 0,
            heartbeat_interval_secs: 0,
        }
    }
}

impl Default for ClusterConfig {
    /// A node on its own.
    fn default() -> (config: Self)
        ensures
            config@ == ClusterConfigView::unset(),
    {
        let config = ClusterConfig {
            enabled: false,
            node_name: None,
            static_role: None,
            bind_host: String::new(),
            bind_port: 0,
            node_token: None,
            capabilities: Vec::new(),
            peers: Vec::new(),
            discovery_enabled: false,
            discovery_port: None,
            discovery_interval_secs: 0,
            heartbeat_interval_secs: 0,
        };
        assert(config@.capabilities =~= Seq::empty());
        assert(config@.peers =~= Seq::empty());
        config
    }
}

/// A copy of a list of texts.
pub fn clone_texts(texts: &Vec<String>) -> (copy: Vec<String>)
    ensures
        copy.deep_view() == texts.deep_view(),
{
    let copy = texts.clone();
    assert(copy.deep_view() =~= texts.deep_view());
    copy
}

/// A copy of an optional text.
pub fn clone_opt_text(text: &Option<String>) -> (copy: Option<String>)
    ensures
        copy.deep_view() == text.deep_view(),
{
    match text {
        Some(t) => Some(t.clone()),
        None => None,
    }
}

impl Clone for ClusterConfig {
    fn clone(&self) -> (copy: Self)
        ensures
            copy@ == self@,
    {
        ClusterConfig {
            enabled: self.enabled,
            node_name: clone_opt_text(&self.node_name),
            static_role: self.static_role,
            bind_host: self.bind_host.clone(),
            bind_port: self.bind_port,
            node_token: clone_opt_text(&self.node_token),
            capabilities: clone_texts(&self.capabilities),
            peers: clone_texts(&self.peers),
            discovery_enabled: self.discovery_enabled,
            discovery_port: self.discovery_port,
            discovery_interval_secs: self.discovery_interval_secs,
            heartbeat_interval_secs: self.heartbeat_interval_secs,
        }
    }
}

} // verus!
