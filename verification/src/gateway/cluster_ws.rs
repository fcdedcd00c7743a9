//! Cluster WebSocket handler for node-to-node communication.
//!
//! This endpoint handles cluster mesh communication between ZeroClaw nodes.

use std::collections::hash_map::DefaultHasher;
use std::hash::Hasher;
use vstd::prelude::*;
use vstd::std_specs::hash::DefaultHasherAdditionalSpecFns;

use crate::cluster::message::{ClusterMessage, MessageView};
use crate::cluster::node::{clock_reads, unix_now, NodeAddr, NodeId, NodeInfo, NodeInfoView};
use crate::cluster::peers::has_coordinator;
use crate::cluster::ws_transport::{
    TransportView, WsActionView, WsEventView, WsPhase, WsSession,
};
use crate::config::{ClusterConfig, ClusterConfigView, ClusterNodeRole};
use crate::outside;
use crate::outside::hash_text;
use crate::text::{joined, same_text};

verus! {

/// The query of a request to join the cluster.
#[derive(Debug)]
pub struct ClusterQuery {
    pub token: Option<String>,
}

/// The id that goes with a name: the hash of the name.
pub open spec fn stable_id(name: Seq<char>) -> NodeId {
    NodeId(DefaultHasher::spec_finish(outside::str_hash_writes(name)) as u128)
}

/// The id of the gateway of this name. Gateways of one name have one id.
pub fn stable_node_id(node_name: &str) -> (id: NodeId)
    ensures
        id == stable_id(node_name@),
        id.0 <= u64::MAX,
{
    let mut hasher = DefaultHasher::new();
    hash_text(node_name, &mut hasher);
    assert(hasher@ =~= outside::str_hash_writes(node_name@));
    let hash: u64 = hasher.finish();
    NodeId::from_u128(hash as u128)
}

/// The answer to a request to join the cluster.
#[derive(Debug)]
pub enum Admission {
    /// An HTTP status and its text.
    Refuse { status: u16, body: String },
    /// The connection becomes a WebSocket, on which the gateway goes by this id and
    /// name.
    Upgrade { node_id: NodeId, node_name: String },
}

/// An [`Admission`] with its text as characters.
pub enum AdmissionView {
    Refuse { status: u16, body: Seq<char> },
    Upgrade { node_id: NodeId, node_name: Seq<char> },
}

impl View for Admission {
    type V = AdmissionView;

    open spec fn view(&self) -> AdmissionView {
        match self {
            Admission::Refuse { status, body } => AdmissionView::Refuse {
                status: *status,
                body: body@,
            },
            Admission::Upgrade { node_id, node_name } => AdmissionView::Upgrade {
                node_id: *node_id,
                node_name: node_name@,
            },
        }
    }
}

/// The HTTP status of a request that is not allowed.
pub const STATUS_FORBIDDEN: u16 = 403;

/// The HTTP status of a request without the right credentials.
pub const STATUS_UNAUTHORIZED: u16 = 401;

/// The token that a request gives; one that gives none gives an empty one.
pub open spec fn provided_token(token: Option<Seq<char>>) -> Seq<char> {
    match token {
        Some(token) => token,
        None => Seq::empty(),
    }
}

/// How a request with this token is answered: no request is let in where the cluster is
/// disabled, and none with another token than the configured one, if one is configured.
pub open spec fn admission(config: ClusterConfigView, token: Option<Seq<char>>) -> AdmissionView {
    let name = match config.node_name {
        Some(name) => name,
        None => "gateway"@,
    };
    if !config.enabled {
        AdmissionView::Refuse { status: STATUS_FORBIDDEN, body: "Cluster is not enabled"@ }
    } else if config.node_token is Some && provided_token(token) != config.node_token.unwrap() {
        AdmissionView::Refuse { status: STATUS_UNAUTHORIZED, body: "Invalid cluster token"@ }
    } else {
        AdmissionView::Upgrade { node_id: stable_id(name), node_name: name }
    }
}

/// Answers a request to join the cluster.
pub fn handle_ws_cluster(config: &ClusterConfig, params: &ClusterQuery) -> (answer: Admission)
    ensures
        answer@ == admission(config@, params.token.deep_view()),
{
    if !config.enabled {
        return Admission::Refuse {
            status: STATUS_FORBIDDEN,
            body: "Cluster is not enabled".to_string(),
        };
    }
    if let Some(expected_token) = &config.node_token {
        let accepted = match &params.token {
            Some(token) => same_text(token, expected_token),
            None => expected_token.as_str().is_empty(),
        };
        proof {
            if expected_token@.len() == 0 {
                assert(expected_token@ =~= Seq::empty());
            }
        }
        if !accepted {
            return Admission::Refuse {
                status: STATUS_UNAUTHORIZED,
                body: "Invalid cluster token".to_string(),
            };
        }
    }
    let node_name = match &config.node_name {
        Some(name) => name.clone(),
        None => "gateway".to_string(),
    };
    Admission::Upgrade { node_id: stable_node_id(&node_name), node_name }
}

/// One connection to the gateway.
#[derive(Debug)]
pub struct ClusterSocket {
    /// How the gateway introduces itself.
    pub self_info: NodeInfo,
}

/// What comes out of a connection.
#[derive(Debug)]
pub enum SocketEvent {
    Message(ClusterMessage),
    /// A text that is no message, or something that is no text.
    Other,
    /// The other side closes, the socket fails, or nothing more will come.
    Closed,
}

/// What to do with a connection.
#[derive(Debug)]
pub enum SocketAction {
    Wait,
    Reply(ClusterMessage),
    /// Have the agent work on the prompt, and answer the delegation of this id with what
    /// comes of it.
    RunAgent { id: u128, prompt: String },
    Close,
}

/// A [`SocketEvent`] with its text as characters.
pub enum SocketEventView {
    Message(MessageView),
    Other,
    Closed,
}

/// A [`SocketAction`] with its text as characters.
pub enum SocketActionView {
    Wait,
    Reply(MessageView),
    RunAgent { id: u128, prompt: Seq<char> },
    Close,
}

impl View for SocketEvent {
    type V = SocketEventView;

    open spec fn view(&self) -> SocketEventView {
        match self {
            SocketEvent::Message(message) => SocketEventView::Message(message@),
            SocketEvent::Other => SocketEventView::Other,
            SocketEvent::Closed => SocketEventView::Closed,
        }
    }
}

impl View for SocketAction {
    type V = SocketActionView;

    open spec fn view(&self) -> SocketActionView {
        match self {
            SocketAction::Wait => SocketActionView::Wait,
            SocketAction::Reply(message) => SocketActionView::Reply(message@),
            SocketAction::RunAgent { id, prompt } => SocketActionView::RunAgent {
                id: *id,
                prompt: prompt@,
            },
            SocketAction::Close => SocketActionView::Close,
        }
    }
}

/// How the gateway introduces itself at `now`. Without a role it is the coordinator.
pub open spec fn gateway_info(
    config: ClusterConfigView,
    node_id: NodeId,
    node_name: Seq<char>,
    now: u64,
) -> NodeInfoView {
    NodeInfoView::fresh(
        node_id,
        node_name,
        NodeAddr::unspecified_spec(),
        match config.static_role {
            Some(role) => role,
            None => ClusterNodeRole::Coordinator,
        },
        Seq::empty(),
        now,
    )
}

/// What the agent is asked, for a prompt and the context that may come with it.
pub open spec fn full_prompt(prompt: Seq<char>, context: Option<Seq<char>>) -> Seq<char> {
    match context {
        Some(context) => "[Context]\n"@ + context + "\n\n[Task]\n"@ + prompt,
        None => prompt,
    }
}

/// What to do on an event, for a gateway that introduces itself as `self_info`: a
/// handshake is acknowledged, a delegation goes to the agent, a ping gets a pong, and
/// nothing else is answered.
pub open spec fn socket_action(self_info: NodeInfoView, event: SocketEventView) -> SocketActionView {
    match event {
        SocketEventView::Message(MessageView::Handshake { .. }) => SocketActionView::Reply(
            MessageView::HandshakeAck { node_info: self_info },
        ),
        SocketEventView::Message(
            MessageView::DelegateCrossNode { id, prompt, context, .. },
        ) => SocketActionView::RunAgent { id, prompt: full_prompt(prompt, context) },
        SocketEventView::Message(MessageView::Ping) => SocketActionView::Reply(MessageView::Pong),
        SocketEventView::Message(_) | SocketEventView::Other => SocketActionView::Wait,
        SocketEventView::Closed => SocketActionView::Close,
    }
}

/// The answer to a delegation: the agent's result, or what went wrong and no result.
pub open spec fn delegate_answer(
    id: u128,
    source: NodeId,
    outcome: Result<Seq<char>, Seq<char>>,
) -> MessageView {
    match outcome {
        Ok(result) => MessageView::DelegateResponse { id, result, source, error: None },
        Err(error) => MessageView::DelegateResponse {
            id,
            result: Seq::empty(),
            source,
            error: Some(error),
        },
    }
}

/// The characters of an agent's outcome.
pub open spec fn outcome_view(outcome: Result<String, String>) -> Result<Seq<char>, Seq<char>> {
    match outcome {
        Ok(result) => Ok(result@),
        Err(error) => Err(error@),
    }
}

impl ClusterSocket {
    /// A connection made at `now`, in seconds since the Unix epoch.
    pub fn new_at(config: &ClusterConfig, node_id: NodeId, node_name: String, now: u64) -> (socket: Self)
        ensures
            socket.self_info@ == gateway_info(config@, node_id, node_name@, now),
    {
        let role = match config.static_role {
            Some(role) => role,
            None => ClusterNodeRole::Coordinator,
        };
        let none: Vec<String> = Vec::new();
        assert(none.deep_view() =~= Seq::empty());
        ClusterSocket {
            self_info: NodeInfo::new_at(
                node_id,
                node_name,
                NodeAddr::unspecified(),
                role,
                none,
                now,
            ),
        }
    }

    /// A connection made just now.
    pub fn new(config: &ClusterConfig, node_id: NodeId, node_name: String) -> (socket: Self)
        ensures
            exists|now: u64|
                clock_reads(now) && socket.self_info@ == #[trigger] gateway_info(
                    config@,
                    node_id,
                    node_name@,
                    now,
                ),
    {
        Self::new_at(config, node_id, node_name, unix_now())
    }

    /// What to do on an event.
    pub fn handle_cluster_socket(&self, event: SocketEvent) -> (action: SocketAction)
        ensures
            action@ == socket_action(self.self_info@, event@),
    {
        match event {
            SocketEvent::Message(ClusterMessage::Handshake { .. }) => SocketAction::Reply(
                ClusterMessage::handshake_ack(self.self_info.clone()),
            ),
            SocketEvent::Message(ClusterMessage::DelegateCrossNode { id, prompt, context, .. }) => {
                let prompt = match context {
                    Some(context) => joined(
                        &joined(&joined("[Context]\n", &context), "\n\n[Task]\n"),
                        &prompt,
                    ),
                    None => prompt,
                };
                SocketAction::RunAgent { id, prompt }
            },
            SocketEvent::Message(ClusterMessage::Ping) => SocketAction::Reply(
                ClusterMessage::pong(),
            ),
            SocketEvent::Message(_) | SocketEvent::Other => SocketAction::Wait,
            SocketEvent::Closed => SocketAction::Close,
        }
    }

    /// The answer to the delegation `id`, from what the agent came to.
    pub fn delegate_response(&self, id: u128, outcome: Result<String, String>) -> (message:
        ClusterMessage)
        ensures
            message@ == delegate_answer(id, self.self_info.id, outcome_view(outcome)),
    {
        match outcome {
            Ok(result) => ClusterMessage::DelegateResponse {
                id,
                result,
                source: self.self_info.id,
                error: None,
            },
            Err(error) => ClusterMessage::DelegateResponse {
                id,
                result: String::new(),
                source: self.self_info.id,
                error: Some(error),
            },
        }
    }
}

/// No request is let in where the cluster is disabled: it is answered `403`, whatever
/// token it gives.
pub proof fn law_disabled_cluster_admits_nobody(config: ClusterConfigView, token: Option<Seq<char>>)
    ensures
        !config.enabled <==> admission(config, token) == (AdmissionView::Refuse {
            status: STATUS_FORBIDDEN,
            body: "Cluster is not enabled"@,
        }),
{
}

/// Where the cluster is enabled, a request is let in exactly if no token is configured
/// or it gives the configured one; any other is answered `401`.
pub proof fn law_admission_takes_the_token(config: ClusterConfigView, token: Option<Seq<char>>)
    requires
        config.enabled,
    ensures
        admission(config, token) is Upgrade <==> (config.node_token matches Some(expected)
            ==> provided_token(token) == expected),
        admission(config, token) is Refuse ==> admission(config, token) == (AdmissionView::Refuse {
            status: STATUS_UNAUTHORIZED,
            body: "Invalid cluster token"@,
        }),
{
}

/// A gateway goes by the same id on every connection, as long as it keeps its name.
pub proof fn law_gateway_keeps_its_id(
    a: ClusterConfigView,
    b: ClusterConfigView,
    token_a: Option<Seq<char>>,
    token_b: Option<Seq<char>>,
)
    requires
        a.node_name == b.node_name,
        admission(a, token_a) is Upgrade,
        admission(b, token_b) is Upgrade,
    ensures
        admission(a, token_a) == admission(b, token_b),
{
}

/// Every delegation is answered under its own id and in the gateway's name, with a
/// result or an error and never both.
pub proof fn law_delegation_is_answered_under_its_id(
    self_info: NodeInfoView,
    id: u128,
    agent_name: Seq<char>,
    prompt: Seq<char>,
    context: Option<Seq<char>>,
    source: NodeId,
    target: Option<NodeId>,
    outcome: Result<Seq<char>, Seq<char>>,
)
    ensures
        ({
            let asked = SocketEventView::Message(
                MessageView::DelegateCrossNode { id, agent_name, prompt, context, source, target },
            );
            &&& socket_action(self_info, asked) matches SocketActionView::RunAgent { id: work, .. }
            &&& delegate_answer(work, self_info.id, outcome) matches MessageView::DelegateResponse {
                id: answered,
                result,
                source: from,
                error,
            }
            &&& answered == id
            &&& from == self_info.id
            &&& error is Some <==> outcome is Err
            &&& outcome matches Ok(text) ==> result == text
            &&& outcome matches Err(text) ==> error == Some(text) && result.len() == 0
        }),
{
}

/// A node that connects to a gateway knows it from then on, and has a coordinator if
/// the gateway has no other role.
pub proof fn law_gateway_coordinates_its_nodes(
    client: TransportView,
    config: ClusterConfigView,
    node_id: NodeId,
    node_name: Seq<char>,
    made: u64,
    sent: u64,
    received: u64,
)
    ensures
        ({
            let info = gateway_info(config, node_id, node_name, made);
            let hello = SocketEventView::Message(client.greeting(sent));
            &&& socket_action(info, hello) matches SocketActionView::Reply(ack)
            &&& {
                let (after, session, action) = client.step(
                    WsSession::opened(false),
                    WsEventView::Message(ack),
                    received,
                );
                &&& action == WsActionView::Wait
                &&& session.phase == WsPhase::Greeted(node_id)
                &&& after == client.with_peer(info.reintroduced(received))
                &&& config.static_role != Some(ClusterNodeRole::Worker) ==> has_coordinator(
                    after.peers,
                )
            }
        }),
{
    let info = gateway_info(config, node_id, node_name, made);
    let peers = client.with_peer(info.reintroduced(received)).peers;
    assert(peers.contains_key(node_id.0));
}

} // verus!
