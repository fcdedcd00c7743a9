//! What comes of calls at the gateway.

use std::collections::hash_map::DefaultHasher;
use vstd::prelude::*;
use vstd::std_specs::hash::DefaultHasherAdditionalSpecFns;

use crate::cluster::message::ClusterMessage;
use crate::cluster::node::{clock_reads, NodeAddr, NodeId, NodeInfo};
use crate::config::{ClusterConfig, ClusterNodeRole};
use crate::gateway::cluster_ws::{
    handle_ws_cluster, stable_node_id, Admission, ClusterQuery, ClusterSocket, SocketAction,
    SocketEvent,
};
use crate::laws::message::same_node;
use crate::outside::str_hash_writes;

verus! {

/// The id of a gateway is the hash of its name, whole.
pub proof fn law_stable_id_is_the_hash_of_the_name(a: &str, b: &str, id_a: NodeId, id_b: NodeId)
    requires
        call_ensures(stable_node_id, (a,), id_a),
        call_ensures(stable_node_id, (b,), id_b),
    ensures
        id_a.0 == DefaultHasher::spec_finish(str_hash_writes(a@)),
        a@ == b@ ==> id_a == id_b,
{
}

/// A request is let in exactly if the cluster is enabled and no token is configured or
/// the request gives that token; giving none is giving an empty one.
pub proof fn law_request_is_let_in_by_token(
    config: ClusterConfig,
    query: ClusterQuery,
    answer: Admission,
)
    requires
        call_ensures(handle_ws_cluster, (&config, &query), answer),
    ensures
        answer is Upgrade <==> config.enabled && (config.node_token matches Some(expected) ==> (
        match query.token {
            Some(token) => token@ == expected@,
            None => expected@.len() == 0,
        })),
        !config.enabled ==> (answer matches Admission::Refuse { status, body } && status == 403
            && body@ == "Cluster is not enabled"@),
        config.enabled && !(answer is Upgrade) ==> (answer matches Admission::Refuse {
            status,
            body,
        } && status == 401 && body@ == "Invalid cluster token"@),
{
    if let Some(expected) = config.node_token {
        if expected@.len() == 0 {
            assert(expected@ =~= Seq::empty());
        }
    }
}

/// Whoever is let in meets the gateway under its configured name, or as `gateway`, and
/// under the id that goes with that name.
pub proof fn law_gateway_goes_by_its_name(
    config: ClusterConfig,
    query: ClusterQuery,
    answer: Admission,
    name: &str,
    id: NodeId,
)
    requires
        call_ensures(handle_ws_cluster, (&config, &query), answer),
        name@ == (match config.node_name {
            Some(name) => name@,
            None => "gateway"@,
        }),
        call_ensures(stable_node_id, (name,), id),
    ensures
        answer matches Admission::Upgrade { node_id, node_name } ==> node_name@ == name@ && node_id
            == id,
{
}

/// The gateway introduces itself under its id and name, in the configured role or as
/// coordinator, without address, capabilities or load.
pub proof fn law_gateway_introduces_itself(
    config: ClusterConfig,
    id: NodeId,
    name: String,
    now: u64,
    then_made: ClusterSocket,
    now_made: ClusterSocket,
)
    requires
        call_ensures(ClusterSocket::new_at, (&config, id, name, now), then_made),
        call_ensures(ClusterSocket::new, (&config, id, name), now_made),
    ensures
        introduces(config, id, name@, then_made.self_info),
        then_made.self_info.last_heartbeat_secs == now,
        introduces(config, id, name@, now_made.self_info),
        clock_reads(now_made.self_info.last_heartbeat_secs),
{
    assert(then_made.self_info.capabilities.deep_view().len()
        == then_made.self_info.capabilities.len());
    assert(now_made.self_info.capabilities.deep_view().len()
        == now_made.self_info.capabilities.len());
}

/// Whether `info` introduces a gateway of this id and name.
pub open spec fn introduces(
    config: ClusterConfig,
    id: NodeId,
    name: Seq<char>,
    info: NodeInfo,
) -> bool {
    &&& info.id == id
    &&& info.name@ == name
    &&& info.addr == (NodeAddr::V4 { ip: 0, port: 0 })
    &&& config.static_role matches Some(role) ==> info.role == role
    &&& config.static_role is None ==> info.role == ClusterNodeRole::Coordinator
    &&& info.capabilities.len() == 0
    &&& info.status is Connecting
    &&& info.load_score == 0
}

/// The agent is asked the whole task under the id of the delegation: the prompt itself,
/// or the whole context and then the whole prompt, each under its heading.
pub proof fn law_agent_is_asked_the_whole_task(
    socket: ClusterSocket,
    id: u128,
    agent_name: String,
    prompt: String,
    context: Option<String>,
    source: NodeId,
    target: Option<NodeId>,
    action: SocketAction,
)
    requires
        call_ensures(
            ClusterSocket::handle_cluster_socket,
            (
                &socket,
                SocketEvent::Message(
                    ClusterMessage::DelegateCrossNode {
                        id,
                        agent_name,
                        prompt,
                        context,
                        source,
                        target,
                    },
                ),
            ),
            action,
        ),
    ensures
        action matches SocketAction::RunAgent { id: work, prompt: asked } && {
            &&& work == id
            &&& asked@.len() >= prompt@.len()
            &&& asked@.skip(asked@.len() - prompt@.len()) == prompt@
            &&& context is None ==> asked@ == prompt@
            &&& context matches Some(context) ==> {
                &&& asked@.len() == 10int + context@.len() + 9 + prompt@.len()
                &&& asked@.take(10) == "[Context]\n"@
                &&& asked@.subrange(10, 10int + context@.len()) == context@
                &&& asked@.subrange(10int + context@.len(), 19int + context@.len()) == "\n\n[Task]\n"@
            }
        },
{
    reveal_strlit("[Context]\n");
    reveal_strlit("\n\n[Task]\n");
    if let SocketAction::RunAgent { prompt: asked, .. } = action {
        assert(asked@.skip(asked@.len() - prompt@.len()) =~= prompt@);
        if let Some(context) = context {
            assert(asked@.take(10) =~= "[Context]\n"@);
            assert(asked@.subrange(10, 10int + context@.len()) =~= context@);
            assert(asked@.subrange(10int + context@.len(), 19int + context@.len())
                =~= "\n\n[Task]\n"@);
        }
    }
}

/// What the agent comes to is answered whole, under the id of the delegation and in the
/// gateway's name: a result without an error, or an error without a result.
pub proof fn law_delegation_is_answered_whole(
    socket: ClusterSocket,
    id: u128,
    outcome: Result<String, String>,
    message: ClusterMessage,
)
    requires
        call_ensures(ClusterSocket::delegate_response, (&socket, id, outcome), message),
    ensures
        message matches ClusterMessage::DelegateResponse { id: answered, result, source, error } && {
            &&& answered == id
            &&& source == socket.self_info.id
            &&& outcome matches Ok(text) ==> result@ == text@ && error is None
            &&& outcome matches Err(text) ==> result@.len() == 0 && (error matches Some(error)
                && error@ == text@)
        },
{
}

/// Every handshake is acknowledged with the gateway's own introduction, whatever node
/// sends it and whatever token.
pub proof fn law_handshake_is_acknowledged_by_the_gateway(
    socket: ClusterSocket,
    node_info: NodeInfo,
    token: String,
    action: SocketAction,
)
    requires
        call_ensures(
            ClusterSocket::handle_cluster_socket,
            (&socket, SocketEvent::Message(ClusterMessage::Handshake { node_info, token })),
            action,
        ),
    ensures
        action matches SocketAction::Reply(ClusterMessage::HandshakeAck { node_info: said })
            && same_node(said, socket.self_info),
{
}

/// A ping gets a pong, the end of the connection ends it, and anything else but a
/// handshake or a delegation is passed over.
pub proof fn law_gateway_passes_over_the_rest(
    socket: ClusterSocket,
    event: SocketEvent,
    action: SocketAction,
)
    requires
        call_ensures(ClusterSocket::handle_cluster_socket, (&socket, event), action),
    ensures
        action is Close <==> event is Closed,
        action is RunAgent <==> (event matches SocketEvent::Message(message) && message
            is DelegateCrossNode),
        action matches SocketAction::Reply(ClusterMessage::Pong) <==> (event
            matches SocketEvent::Message(message) && message is Ping),
        action is Reply <==> (event matches SocketEvent::Message(message) && (message is Handshake
            || message is Ping)),
{
}

} // verus!
