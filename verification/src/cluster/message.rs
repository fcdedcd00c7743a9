//! What nodes say to each other.

use vstd::prelude::*;

use crate::cluster::node::{draw_uuid, drawn_uuid, NodeId, NodeInfo, NodeInfoView};
use crate::config::clone_opt_text;
use crate::outside;

verus! {

/// A message between nodes. The `id` of a task or a delegation is the number that
/// the bytes of its UUID spell.
#[derive(Debug)]
pub enum ClusterMessage {
    Handshake { node_info: NodeInfo, token: String },
    HandshakeAck { node_info: NodeInfo },
    HandshakeNack { reason: String },
    Heartbeat { node_id: NodeId, load_score: u32 },
    Election { candidate_id: NodeId, term: u64 },
    ElectionResult { winner_id: NodeId, term: u64 },
    TaskRequest {
        id: u128,
        task_type: TaskType,
        payload: String,
        source: NodeId,
        reply_target: Option<NodeId>,
    },
    TaskResponse { id: u128, result: String, source: NodeId, error: Option<String> },
    DelegateCrossNode {
        id: u128,
        agent_name: String,
        prompt: String,
        context: Option<String>,
        source: NodeId,
        target: Option<NodeId>,
    },
    DelegateResponse { id: u128, result: String, source: NodeId, error: Option<String> },
    StateQuery { query_type: StateQueryType },
    StateSync { agent_count: usize, memory_count: usize },
    PeerList { peers: Vec<NodeInfo> },
    PeerJoined { node_info: NodeInfo },
    PeerLeft { node_id: NodeId },
    Ping,
    Pong,
}

/// The work that a task asks for.
#[derive(Debug, PartialEq, Eq)]
pub enum TaskType {
    Chat,
    Agentic,
    MemoryRecall,
    MemoryStore,
    Custom(String),
}

/// What a node wants to know of another's state.
#[derive(Debug, Clone, Copy, PartialEq, Eq, Hash, Structural)]
pub enum StateQueryType {
    AgentCount,
    MemoryCount,
    Full,
}

/// A [`TaskType`] with its text as characters.
pub enum TaskTypeView {
    Chat,
    Agentic,
    MemoryRecall,
    MemoryStore,
    Custom(Seq<char>),
}

/// A [`ClusterMessage`] with its text as characters.
pub enum MessageView {
    Handshake { node_info: NodeInfoView, token: Seq<char> },
    HandshakeAck { node_info: NodeInfoView },
    HandshakeNack { reason: Seq<char> },
    Heartbeat { node_id: NodeId, load_score: u32 },
    Election { candidate_id: NodeId, term: u64 },
    ElectionResult { winner_id: NodeId, term: u64 },
    TaskRequest {
        id: u128,
        task_type: TaskTypeView,
        payload: Seq<char>,
        source: NodeId,
        reply_target: Option<NodeId>,
    },
    TaskResponse { id: u128, result: Seq<char>, source: NodeId, error: Option<Seq<char>> },
    DelegateCrossNode {
        id: u128,
        agent_name: Seq<char>,
        prompt: Seq<char>,
        context: Option<Seq<char>>,
        source: NodeId,
        target: Option<NodeId>,
    },
    DelegateResponse { id: u128, result: Seq<char>, source: NodeId, error: Option<Seq<char>> },
    StateQuery { query_type: StateQueryType },
    StateSync { agent_count: usize, memory_count: usize },
    PeerList { peers: Seq<NodeInfoView> },
    PeerJoined { node_info: NodeInfoView },
    PeerLeft { node_id: NodeId },
    Ping,
    Pong,
}

impl View for TaskType {
    type V = TaskTypeView;

    open spec fn view(&self) -> TaskTypeView {
        match self {
            TaskType::Chat => TaskTypeView::Chat,
            TaskType::Agentic => TaskTypeView::Agentic,
            TaskType::MemoryRecall => TaskTypeView::MemoryRecall,
            TaskType::MemoryStore => TaskTypeView::MemoryStore,
            TaskType::Custom(name) => TaskTypeView::Custom(name@),
        }
    }
}

impl View for ClusterMessage {
    type V = MessageView;

    open spec fn view(&self) -> MessageView {
        match self {
            ClusterMessage::Handshake { node_info, token } => MessageView::Handshake {
                node_info: node_info@,
                token: token@,
            },
            ClusterMessage::HandshakeAck { node_info } => MessageView::HandshakeAck {
                node_info: node_info@,
            },
            ClusterMessage::HandshakeNack { reason } => MessageView::HandshakeNack {
                reason: reason@,
            },
            ClusterMessage::Heartbeat { node_id, load_score } => MessageView::Heartbeat {
                node_id: *node_id,
                load_score: *load_score,
            },
            ClusterMessage::Election { candidate_id, term } => MessageView::Election {
                candidate_id: *candidate_id,
                term: *term,
            },
            ClusterMessage::ElectionResult { winner_id, term } => MessageView::ElectionResult {
                winner_id: *winner_id,
                term: *term,
            },
            ClusterMessage::TaskRequest { id, task_type, payload, source, reply_target } => {
                MessageView::TaskRequest {
                    id: *id,
                    task_type: task_type@,
                    payload: payload@,
                    source: *source,
                    reply_target: *reply_target,
                }
            },
            ClusterMessage::TaskResponse { id, result, source, error } => {
                MessageView::TaskResponse {
                    id: *id,
                    result: result@,
                    source: *source,
                    error: error.deep_view(),
                }
            },
            ClusterMessage::DelegateCrossNode {
                id,
                agent_name,
                prompt,
                context,
                source,
                target,
            } => MessageView::DelegateCrossNode {
                id: *id,
                agent_name: agent_name@,
                prompt: prompt@,
                context: context.deep_view(),
                source: *source,
                target: *target,
            },
            ClusterMessage::DelegateResponse { id, result, source, error } => {
                MessageView::DelegateResponse {
                    id: *id,
                    result: result@,
                    source: *source,
                    error: error.deep_view(),
                }
            },
            ClusterMessage::StateQuery { query_type } => MessageView::StateQuery {
                query_type: *query_type,
            },
            ClusterMessage::StateSync { agent_count, memory_count } => MessageView::StateSync {
                agent_count: *agent_count,
                memory_count: *memory_count,
            },
            ClusterMessage::PeerList { peers } => MessageView::PeerList {
                peers: peers.deep_view(),
            },
            ClusterMessage::PeerJoined { node_info } => MessageView::PeerJoined {
                node_info: node_info@,
            },
            ClusterMessage::PeerLeft { node_id } => MessageView::PeerLeft { node_id: *node_id },
            ClusterMessage::Ping => MessageView::Ping,
            ClusterMessage::Pong => MessageView::Pong,
        }
    }
}

impl DeepView for ClusterMessage {
    type V = MessageView;

    open spec fn deep_view(&self) -> MessageView {
        self@
    }
}

impl Clone for TaskType {
    fn clone(&self) -> (copy: Self)
        ensures
            copy@ == self@,
    {
        match self {
            TaskType::Chat => TaskType::Chat,
            TaskType::Agentic => TaskType::Agentic,
            TaskType::MemoryRecall => TaskType::MemoryRecall,
            TaskType::MemoryStore => TaskType::MemoryStore,
            TaskType::Custom(name) => TaskType::Custom(name.clone()),
        }
    }
}

/// A copy of a list of nodes.
fn clone_nodes(nodes: &Vec<NodeInfo>) -> (copy: Vec<NodeInfo>)
    ensures
        copy.deep_view() == nodes.deep_view(),
{
    let mut copy: Vec<NodeInfo> = Vec::new();
    let mut i: usize = 0;
    while i < nodes.len()
        invariant
            i <= nodes.len(),
            copy.deep_view() == nodes.deep_view().take(i as int),
        decreases nodes.len() - i,
    {
        let ghost before = copy.deep_view();
        let node = nodes[i].clone();
        copy.push(node);
        assert(copy.deep_view() =~= before.push(node@));
        assert(copy.deep_view() =~= nodes.deep_view().take(i + 1));
        i += 1;
    }
    assert(copy.deep_view() =~= nodes.deep_view());
    copy
}

impl Clone for ClusterMessage {
    fn clone(&self) -> (copy: Self)
        ensures
            copy@ == self@,
    {
        match self {
            ClusterMessage::Handshake { node_info, token } => ClusterMessage::Handshake {
                node_info: node_info.clone(),
                token: token.clone(),
            },
            ClusterMessage::HandshakeAck { node_info } => ClusterMessage::HandshakeAck {
                node_info: node_info.clone(),
            },
            ClusterMessage::HandshakeNack { reason } => ClusterMessage::HandshakeNack {
                reason: reason.clone(),
            },
            ClusterMessage::Heartbeat { node_id, load_score } => ClusterMessage::Heartbeat {
                node_id: *node_id,
                load_score: *load_score,
            },
            ClusterMessage::Election { candidate_id, term } => ClusterMessage::Election {
                candidate_id: *candidate_id,
                term: *term,
            },
            ClusterMessage::ElectionResult { winner_id, term } => ClusterMessage::ElectionResult {
                winner_id: *winner_id,
                term: *term,
            },
            ClusterMessage::TaskRequest { id, task_type, payload, source, reply_target } => {
                ClusterMessage::TaskRequest {
                    id: *id,
                    task_type: task_type.clone(),
                    payload: payload.clone(),
                    source: *source,
                    reply_target: *reply_target,
                }
            },
            ClusterMessage::TaskResponse { id, result, source, error } => {
                ClusterMessage::TaskResponse {
                    id: *id,
                    result: result.clone(),
                    source: *source,
                    error: clone_opt_text(error),
                }
            },
            ClusterMessage::DelegateCrossNode {
                id,
                agent_name,
                prompt,
                context,
                source,
                target,
            } => ClusterMessage::DelegateCrossNode {
                id: *id,
                agent_name: agent_name.clone(),
                prompt: prompt.clone(),
                context: clone_opt_text(context),
                source: *source,
                target: *target,
            },
            ClusterMessage::DelegateResponse { id, result, source, error } => {
                ClusterMessage::DelegateResponse {
                    id: *id,
                    result: result.clone(),
                    source: *source,
                    error: clone_opt_text(error),
                }
            },
            ClusterMessage::StateQuery { query_type } => ClusterMessage::StateQuery {
                query_type: *query_type,
            },
            ClusterMessage::StateSync { agent_count, memory_count } => ClusterMessage::StateSync {
                agent_count: *agent_count,
                memory_count: *memory_count,
            },
            ClusterMessage::PeerList { peers } => ClusterMessage::PeerList {
                peers: clone_nodes(peers),
            },
            ClusterMessage::PeerJoined { node_info } => ClusterMessage::PeerJoined {
                node_info: node_info.clone(),
            },
            ClusterMessage::PeerLeft { node_id } => ClusterMessage::PeerLeft { node_id: *node_id },
            ClusterMessage::Ping => ClusterMessage::Ping,
            ClusterMessage::Pong => ClusterMessage::Pong,
        }
    }
}

impl TaskType {
    /// The capability that a node must have to take the task: memory work asks for
    /// `memory`, other work for none.
    pub fn required_capability(&self) -> (cap: Option<&str>)
        ensures
            cap is Some <==> (self is MemoryRecall || self is MemoryStore),
            cap matches Some(cap) ==> cap@ == "memory"@,
    {
        match self {
            TaskType::MemoryRecall | TaskType::MemoryStore => Some("memory"),
            TaskType::Chat | TaskType::Agentic | TaskType::Custom(_) => None,
        }
    }
}

impl ClusterMessage {
    pub fn handshake(node_info: NodeInfo, token: String) -> (message: Self)
        ensures
            message == (ClusterMessage::Handshake { node_info, token }),
    {
        Self::Handshake { node_info, token }
    }

    pub fn handshake_ack(node_info: NodeInfo) -> (message: Self)
        ensures
            message == (ClusterMessage::HandshakeAck { node_info }),
    {
        Self::HandshakeAck { node_info }
    }

    /// A refusal for the reason that `reason` converts into.
    pub fn handshake_nack<R: Into<String>>(reason: R) -> (message: Self)
        ensures
            message matches ClusterMessage::HandshakeNack { reason: said } && call_ensures(
                R::into,
                (reason,),
                said,
            ),
    {
        Self::HandshakeNack { reason: reason.into() }
    }

    pub fn heartbeat(node_id: NodeId, load_score: u32) -> (message: Self)
        ensures
            message == (ClusterMessage::Heartbeat { node_id, load_score }),
    {
        Self::Heartbeat { node_id, load_score }
    }

    pub fn election(candidate_id: NodeId, term: u64) -> (message: Self)
        ensures
            message == (ClusterMessage::Election { candidate_id, term }),
    {
        Self::Election { candidate_id, term }
    }

    pub fn election_result(winner_id: NodeId, term: u64) -> (message: Self)
        ensures
            message == (ClusterMessage::ElectionResult { winner_id, term }),
    {
        Self::ElectionResult { winner_id, term }
    }

    /// A request under a random id, to be answered to its source.
    pub fn task_request(task_type: TaskType, payload: String, source: NodeId) -> (message: Self)
        ensures
            message matches ClusterMessage::TaskRequest {
                id,
                task_type: t,
                payload: p,
                source: s,
                reply_target: None,
            } && outside::is_random_uuid(id) && drawn_uuid(id) && t == task_type && p == payload && s == source,
    {
        Self::task_request_with(draw_uuid(), task_type, payload, source)
    }

    /// A request under the given id, to be answered to its source.
    pub fn task_request_with(id: u128, task_type: TaskType, payload: String, source: NodeId) -> (message:
        Self)
        ensures
            message == (ClusterMessage::TaskRequest {
                id,
                task_type,
                payload,
                source,
                reply_target: None,
            }),
    {
        Self::TaskRequest { id, task_type, payload, source, reply_target: None }
    }

    pub fn task_response(id: u128, result: String, source: NodeId) -> (message: Self)
        ensures
            message == (ClusterMessage::TaskResponse { id, result, source, error: None }),
    {
        Self::TaskResponse { id, result, source, error: None }
    }

    /// A response without a result.
    pub fn task_response_error(id: u128, error: String, source: NodeId) -> (message: Self)
        ensures
            message@ == (MessageView::TaskResponse {
                id,
                result: Seq::empty(),
                source,
                error: Some(error@),
            }),
    {
        Self::TaskResponse { id, result: String::new(), source, error: Some(error) }
    }

    /// A delegation under a random id.
    pub fn delegate_cross_node(
        agent_name: String,
        prompt: String,
        context: Option<String>,
        source: NodeId,
        target: Option<NodeId>,
    ) -> (message: Self)
        ensures
            message matches ClusterMessage::DelegateCrossNode {
                id,
                agent_name: a,
                prompt: p,
                context: c,
                source: s,
                target: t,
            } && outside::is_random_uuid(id) && drawn_uuid(id) && a == agent_name && p == prompt && c == context
                && s == source && t == target,
    {
        Self::delegate_cross_node_with(draw_uuid(), agent_name, prompt, context, source, target)
    }

    /// A delegation under the given id.
    pub fn delegate_cross_node_with(
        id: u128,
        agent_name: String,
        prompt: String,
        context: Option<String>,
        source: NodeId,
        target: Option<NodeId>,
    ) -> (message: Self)
        ensures
            message == (ClusterMessage::DelegateCrossNode {
                id,
                agent_name,
                prompt,
                context,
                source,
                target,
            }),
    {
        Self::DelegateCrossNode { id, agent_name, prompt, context, source, target }
    }

    pub fn ping() -> (message: Self)
        ensures
            message == ClusterMessage::Ping,
    {
        Self::Ping
    }

    pub fn pong() -> (message: Self)
        ensures
            message == ClusterMessage::Pong,
    {
        Self::Pong
    }

    pub fn peer_joined(node_info: NodeInfo) -> (message: Self)
        ensures
            message == (ClusterMessage::PeerJoined { node_info }),
    {
        Self::PeerJoined { node_info }
    }

    pub fn peer_left(node_id: NodeId) -> (message: Self)
        ensures
            message == (ClusterMessage::PeerLeft { node_id }),
    {
        Self::PeerLeft { node_id }
    }
}

} // verus!
