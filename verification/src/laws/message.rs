//! What comes of calls that make messages.

use vstd::prelude::*;

use crate::cluster::message::{ClusterMessage, TaskType};
use crate::cluster::node::{drawn_uuid, NodeId, NodeInfo};

verus! {

/// The messages of a handshake hold the node, the token and the reason that they are made
/// of.
pub proof fn law_handshake_messages_hold_what_is_given(
    info: NodeInfo,
    token: String,
    reason: &str,
    hello: ClusterMessage,
    ack: ClusterMessage,
    nack: ClusterMessage,
    joined: ClusterMessage,
)
    requires
        call_ensures(ClusterMessage::handshake, (info, token), hello),
        call_ensures(ClusterMessage::handshake_ack, (info,), ack),
        call_ensures(ClusterMessage::handshake_nack::<&str>, (reason,), nack),
        call_ensures(ClusterMessage::peer_joined, (info,), joined),
    ensures
        hello matches ClusterMessage::Handshake { node_info, token: said } && node_info == info
            && said == token,
        ack matches ClusterMessage::HandshakeAck { node_info } && node_info == info,
        nack matches ClusterMessage::HandshakeNack { reason: said } && said@ == reason@,
        joined matches ClusterMessage::PeerJoined { node_info } && node_info == info,
{
}

/// The messages about a node and an election hold the id and the number that they are
/// made of.
pub proof fn law_short_messages_hold_what_is_given(
    id: NodeId,
    load: u32,
    term: u64,
    beat: ClusterMessage,
    candidacy: ClusterMessage,
    result: ClusterMessage,
    left: ClusterMessage,
    ping: ClusterMessage,
    pong: ClusterMessage,
)
    requires
        call_ensures(ClusterMessage::heartbeat, (id, load), beat),
        call_ensures(ClusterMessage::election, (id, term), candidacy),
        call_ensures(ClusterMessage::election_result, (id, term), result),
        call_ensures(ClusterMessage::peer_left, (id,), left),
        call_ensures(ClusterMessage::ping, (), ping),
        call_ensures(ClusterMessage::pong, (), pong),
    ensures
        beat matches ClusterMessage::Heartbeat { node_id, load_score } && node_id == id
            && load_score == load,
        candidacy matches ClusterMessage::Election { candidate_id, term: t } && candidate_id == id
            && t == term,
        result matches ClusterMessage::ElectionResult { winner_id, term: t } && winner_id == id && t
            == term,
        left matches ClusterMessage::PeerLeft { node_id } && node_id == id,
        ping is Ping,
        pong is Pong,
{
}

/// A task is requested as given, under a drawn id or the one given, and answered under
/// the id of the request with a result or an error.
pub proof fn law_task_messages_hold_what_is_given(
    id: u128,
    task: TaskType,
    payload: String,
    source: NodeId,
    drawn: ClusterMessage,
    given: ClusterMessage,
    done: ClusterMessage,
    failed: ClusterMessage,
)
    requires
        call_ensures(ClusterMessage::task_request, (task, payload, source), drawn),
        call_ensures(ClusterMessage::task_request_with, (id, task, payload, source), given),
        call_ensures(ClusterMessage::task_response, (id, payload, source), done),
        call_ensures(ClusterMessage::task_response_error, (id, payload, source), failed),
    ensures
        drawn matches ClusterMessage::TaskRequest { id: n, task_type, payload: p, source: s, reply_target }
            && drawn_uuid(n) && task_type == task && p@ == payload@ && s == source && reply_target
            is None,
        given matches ClusterMessage::TaskRequest { id: n, task_type, payload: p, source: s, reply_target }
            && n == id && task_type == task && p@ == payload@ && s == source && reply_target
            is None,
        done matches ClusterMessage::TaskResponse { id: n, result, source: s, error } && n == id
            && result@ == payload@ && s == source && error is None,
        failed matches ClusterMessage::TaskResponse { id: n, result, source: s, error: Some(why) }
            && n == id && result@.len() == 0 && s == source && why@ == payload@,
{
}

/// A delegation is made as given, under a drawn id or the one given.
pub proof fn law_delegations_hold_what_is_given(
    id: u128,
    agent_name: String,
    prompt: String,
    context: Option<String>,
    source: NodeId,
    target: Option<NodeId>,
    drawn: ClusterMessage,
    given: ClusterMessage,
)
    requires
        call_ensures(
            ClusterMessage::delegate_cross_node,
            (agent_name, prompt, context, source, target),
            drawn,
        ),
        call_ensures(
            ClusterMessage::delegate_cross_node_with,
            (id, agent_name, prompt, context, source, target),
            given,
        ),
    ensures
        drawn matches ClusterMessage::DelegateCrossNode {
            id: n,
            agent_name: a,
            prompt: p,
            context: c,
            source: s,
            target: t,
        } && drawn_uuid(n) && a == agent_name && p == prompt && c == context && s == source && t
            == target,
        given matches ClusterMessage::DelegateCrossNode {
            id: n,
            agent_name: a,
            prompt: p,
            context: c,
            source: s,
            target: t,
        } && n == id && a == agent_name && p == prompt && c == context && s == source && t
            == target,
{
}

/// Memory work, and no other, requires a capability, which is `memory`.
pub proof fn law_memory_work_requires_memory(task: TaskType, cap: Option<&str>)
    requires
        call_ensures(TaskType::required_capability, (&task,), cap),
    ensures
        match task {
            TaskType::MemoryRecall | TaskType::MemoryStore => cap matches Some(cap) && cap@
                == "memory"@,
            TaskType::Chat | TaskType::Agentic | TaskType::Custom(_) => cap is None,
        },
{
}

/// A copy of a kind of work is the same.
pub proof fn law_clone_of_a_task_is_the_same(task: TaskType, copy: TaskType)
    requires
        call_ensures(TaskType::clone, (&task,), copy),
    ensures
        match (task, copy) {
            (TaskType::Chat, TaskType::Chat) => true,
            (TaskType::Agentic, TaskType::Agentic) => true,
            (TaskType::MemoryRecall, TaskType::MemoryRecall) => true,
            (TaskType::MemoryStore, TaskType::MemoryStore) => true,
            (TaskType::Custom(a), TaskType::Custom(b)) => a@ == b@,
            _ => false,
        },
{
}

/// Whether two accounts of a node are the same in everything.
pub open spec fn same_node(a: NodeInfo, b: NodeInfo) -> bool {
    &&& a.id == b.id
    &&& a.name@ == b.name@
    &&& a.addr == b.addr
    &&& a.role == b.role
    &&& a.capabilities.deep_view() == b.capabilities.deep_view()
    &&& a.status == b.status
    &&& a.last_heartbeat_secs == b.last_heartbeat_secs
    &&& a.load_score == b.load_score
}

/// Whether two messages say the same in everything.
pub open spec fn same_message(a: ClusterMessage, b: ClusterMessage) -> bool {
    match (a, b) {
        (
            ClusterMessage::Handshake { node_info: a, token: s },
            ClusterMessage::Handshake { node_info: b, token: t },
        ) => same_node(a, b) && s@ == t@,
        (
            ClusterMessage::HandshakeAck { node_info: a },
            ClusterMessage::HandshakeAck { node_info: b },
        ) => same_node(a, b),
        (
            ClusterMessage::HandshakeNack { reason: s },
            ClusterMessage::HandshakeNack { reason: t },
        ) => s@ == t@,
        (
            ClusterMessage::Heartbeat { node_id: a, load_score: m },
            ClusterMessage::Heartbeat { node_id: b, load_score: n },
        ) => a == b && m == n,
        (
            ClusterMessage::Election { candidate_id: a, term: m },
            ClusterMessage::Election { candidate_id: b, term: n },
        ) => a == b && m == n,
        (
            ClusterMessage::ElectionResult { winner_id: a, term: m },
            ClusterMessage::ElectionResult { winner_id: b, term: n },
        ) => a == b && m == n,
        (
            ClusterMessage::TaskRequest {
                id: i,
                task_type: x,
                payload: s,
                source: a,
                reply_target: m,
            },
            ClusterMessage::TaskRequest {
                id: j,
                task_type: y,
                payload: t,
                source: b,
                reply_target: n,
            },
        ) => i == j && x@ == y@ && s@ == t@ && a == b && m == n,
        (
            ClusterMessage::TaskResponse { id: i, result: s, source: a, error: m },
            ClusterMessage::TaskResponse { id: j, result: t, source: b, error: n },
        ) => i == j && s@ == t@ && a == b && m.deep_view() == n.deep_view(),
        (
            ClusterMessage::DelegateCrossNode {
                id: i,
                agent_name: e,
                prompt: s,
                context: c,
                source: a,
                target: m,
            },
            ClusterMessage::DelegateCrossNode {
                id: j,
                agent_name: f,
                prompt: t,
                context: d,
                source: b,
                target: n,
            },
        ) => i == j && e@ == f@ && s@ == t@ && c.deep_view() == d.deep_view() && a == b && m
            == n,
        (
            ClusterMessage::DelegateResponse { id: i, result: s, source: a, error: m },
            ClusterMessage::DelegateResponse { id: j, result: t, source: b, error: n },
        ) => i == j && s@ == t@ && a == b && m.deep_view() == n.deep_view(),
        (
            ClusterMessage::StateQuery { query_type: a },
            ClusterMessage::StateQuery { query_type: b },
        ) => a == b,
        (
            ClusterMessage::StateSync { agent_count: i, memory_count: m },
            ClusterMessage::StateSync { agent_count: j, memory_count: n },
        ) => i == j && m == n,
        (ClusterMessage::PeerList { peers: a }, ClusterMessage::PeerList { peers: b }) => a.len()
            == b.len() && forall|i: int|
            0 <= i < a.len() ==> same_node(#[trigger] a[i], b[i]),
        (
            ClusterMessage::PeerJoined { node_info: a },
            ClusterMessage::PeerJoined { node_info: b },
        ) => same_node(a, b),
        (ClusterMessage::PeerLeft { node_id: a }, ClusterMessage::PeerLeft { node_id: b }) => a
            == b,
        (ClusterMessage::Ping, ClusterMessage::Ping) => true,
        (ClusterMessage::Pong, ClusterMessage::Pong) => true,
        _ => false,
    }
}

/// Messages that look the same to the rules are the same in everything.
pub proof fn law_messages_look_like_what_they_say(a: ClusterMessage, b: ClusterMessage)
    requires
        a@ == b@,
    ensures
        same_message(a, b),
{
    if let (ClusterMessage::PeerList { peers: m }, ClusterMessage::PeerList { peers: n }) = (a, b) {
        assert(m.deep_view().len() == m.len() && n.deep_view().len() == n.len());
        assert forall|i: int| 0 <= i < m.len() implies same_node(#[trigger] m[i], n[i]) by {
            assert(m.deep_view()[i] == n.deep_view()[i]);
        }
    }
}

/// A copy of a message is the same in everything.
pub proof fn law_clone_of_a_message_is_the_same(message: ClusterMessage, copy: ClusterMessage)
    requires
        call_ensures(ClusterMessage::clone, (&message,), copy),
    ensures
        same_message(message, copy),
{
    law_messages_look_like_what_they_say(message, copy);
}

} // verus!
