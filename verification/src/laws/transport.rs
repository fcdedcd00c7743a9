//! What comes of calls on the connections of a node.

use vstd::prelude::*;

use crate::cluster::message::ClusterMessage;
use crate::cluster::node::{clock_reads, NodeAddr, NodeId, NodeInfo, NodeInfoView};
use crate::cluster::ws_transport::{
    all_links, CoordinatorWait, WsAction, WsClusterTransport, WsError, WsEvent, WsPhase, WsSession,
};
use crate::config::{ClusterConfig, ClusterNodeRole};
use crate::laws::message::{law_messages_look_like_what_they_say, same_message, same_node};

verus! {

/// Whether two accounts are of one node: who it is, what it was configured with, and
/// whether it runs. Whom it knows is left open.
pub open spec fn same_self(a: WsClusterTransport, b: WsClusterTransport) -> bool {
    &&& a.node_id == b.node_id
    &&& a.node_name@ == b.node_name@
    &&& a.node_token@ == b.node_token@
    &&& a.capabilities.deep_view() == b.capabilities.deep_view()
    &&& a.bind_addr == b.bind_addr
    &&& a.running == b.running
}

/// Whether nothing at all has changed.
pub open spec fn unchanged(a: WsClusterTransport, b: WsClusterTransport) -> bool {
    &&& same_self(a, b)
    &&& a.peers@ == b.peers@
    &&& a.peer_senders@ == b.peer_senders@
}

/// Whether `info` is how the node introduces itself: its id, its name and all its
/// capabilities, as a worker that does not say where it listens.
pub open spec fn introduces_itself(node: WsClusterTransport, info: NodeInfo) -> bool {
    &&& info.id == node.node_id
    &&& info.name@ == node.node_name@
    &&& info.addr == (NodeAddr::V4 { ip: 0, port: 0 })
    &&& info.role == ClusterNodeRole::Worker
    &&& info.capabilities.deep_view() == node.capabilities.deep_view()
    &&& info.status is Connecting
    &&& info.load_score == 0
}

/// Whether a peer is registered as it introduced itself, heard of at `now`.
pub open spec fn registered(entry: NodeInfoView, info: NodeInfo, now: u64) -> bool {
    &&& entry.id == info.id
    &&& entry.name == info.name@
    &&& entry.addr == info.addr
    &&& entry.role == info.role
    &&& entry.capabilities == info.capabilities.deep_view()
    &&& entry.status is Connecting
    &&& entry.last_heartbeat_secs == now
    &&& entry.load_score == 0
}

/// Whether `after` knows `info` as registered at `now`, and everybody else as `before`
/// did.
pub open spec fn gained(
    after: WsClusterTransport,
    before: WsClusterTransport,
    info: NodeInfo,
    now: u64,
) -> bool {
    &&& same_self(after, before)
    &&& after.peer_senders@ == before.peer_senders@
    &&& after.peers@.contains_key(info.id.0)
    &&& registered(after.peers@[info.id.0], info, now)
    &&& forall|k: u128|
        k != info.id.0 ==> (#[trigger] after.peers@.contains_key(k)
            <==> before.peers@.contains_key(k)) && (before.peers@.contains_key(k)
            ==> after.peers@[k] == before.peers@[k])
}

/// A new node has what it is configured with, runs nothing and knows nobody. Without a
/// configured token it has an empty one.
pub proof fn law_new_transport_is_as_configured(
    config: ClusterConfig,
    id: NodeId,
    name: String,
    addr: NodeAddr,
    node: WsClusterTransport,
)
    requires
        call_ensures(WsClusterTransport::new, (&config, id, name, addr), node),
    ensures
        node.node_id == id,
        node.node_name@ == name@,
        config.node_token matches Some(token) ==> node.node_token@ == token@,
        config.node_token is None ==> node.node_token@.len() == 0,
        node.capabilities.deep_view() == config.capabilities.deep_view(),
        node.bind_addr == addr,
        !node.running,
        forall|k: u128| !node.peers@.contains_key(k),
        forall|k: u128| !node.peer_senders@.contains_key(k),
{
}

/// The side that opened a connection says first who it is, with its token; the side that
/// accepted it says nothing first.
pub proof fn law_opener_introduces_itself(
    node: WsClusterTransport,
    session: WsSession,
    now: u64,
    at: Option<ClusterMessage>,
    just_now: Option<ClusterMessage>,
)
    requires
        call_ensures(WsClusterTransport::opening_at, (&node, &session, now), at),
        call_ensures(WsClusterTransport::opening, (&node, &session), just_now),
    ensures
        session.is_server ==> at is None && just_now is None,
        !session.is_server ==> {
            &&& at matches Some(ClusterMessage::Handshake { node_info, token })
            &&& introduces_itself(node, node_info)
            &&& node_info.last_heartbeat_secs == now
            &&& token@ == node.node_token@
        },
        !session.is_server ==> {
            &&& just_now matches Some(ClusterMessage::Handshake { node_info, token })
            &&& introduces_itself(node, node_info)
            &&& clock_reads(node_info.last_heartbeat_secs)
            &&& token@ == node.node_token@
        },
{
}

/// A server that gets a handshake with its own token registers the sender, with all that
/// it says of itself, and acknowledges by introducing itself.
pub proof fn law_server_registers_and_acknowledges(
    node: &mut WsClusterTransport,
    session: &mut WsSession,
    info: NodeInfo,
    token: String,
    now: u64,
    action: WsAction,
)
    requires
        old(session).is_server,
        old(session).phase is Handshaking,
        token@ == old(node).node_token@,
        call_ensures(
            WsClusterTransport::handle_websocket_at,
            (
                node,
                session,
                WsEvent::Message(ClusterMessage::Handshake { node_info: info, token }),
                now,
            ),
            action,
        ),
    ensures
        action matches WsAction::Reply(ClusterMessage::HandshakeAck { node_info })
            && introduces_itself(*old(node), node_info) && node_info.last_heartbeat_secs == now,
        final(session).phase == WsPhase::Greeted(info.id),
        final(session).is_server,
        gained(*final(node), *old(node), info, now),
{
}

/// A server that gets a handshake with another token refuses it, tells the sender why, and
/// is as before.
pub proof fn law_server_refuses_another_token(
    node: &mut WsClusterTransport,
    session: &mut WsSession,
    info: NodeInfo,
    token: String,
    now: u64,
    action: WsAction,
)
    requires
        old(session).is_server,
        old(session).phase is Handshaking,
        token@ != old(node).node_token@,
        call_ensures(
            WsClusterTransport::handle_websocket_at,
            (
                node,
                session,
                WsEvent::Message(ClusterMessage::Handshake { node_info: info, token }),
                now,
            ),
            action,
        ),
    ensures
        action matches WsAction::Refuse {
            reply: ClusterMessage::HandshakeNack { reason },
            error: WsError::InvalidToken,
        } && reason@ == "invalid cluster token"@,
        final(session).phase is Closed,
        final(session).is_server,
        unchanged(*final(node), *old(node)),
{
}

/// A client registers whoever acknowledges its handshake, with all that it says of itself;
/// a server passes over acknowledgements, and a client over handshakes.
pub proof fn law_client_registers_whoever_acknowledges(
    node: &mut WsClusterTransport,
    session: &mut WsSession,
    other: &mut WsClusterTransport,
    other_session: &mut WsSession,
    info: NodeInfo,
    token: String,
    now: u64,
    on_ack: WsAction,
    on_hello: WsAction,
)
    requires
        old(session).phase is Handshaking,
        call_ensures(
            WsClusterTransport::handle_websocket_at,
            (
                node,
                session,
                WsEvent::Message(ClusterMessage::HandshakeAck { node_info: info }),
                now,
            ),
            on_ack,
        ),
        old(other_session).phase is Handshaking,
        !old(other_session).is_server,
        call_ensures(
            WsClusterTransport::handle_websocket_at,
            (
                other,
                other_session,
                WsEvent::Message(ClusterMessage::Handshake { node_info: info, token }),
                now,
            ),
            on_hello,
        ),
    ensures
        on_ack is Wait,
        !old(session).is_server ==> {
            &&& final(session).phase == WsPhase::Greeted(info.id)
            &&& !final(session).is_server
            &&& gained(*final(node), *old(node), info, now)
        },
        old(session).is_server ==> *final(session) == *old(session) && unchanged(
            *final(node),
            *old(node),
        ),
        on_hello is Wait,
        *final(other_session) == *old(other_session),
        unchanged(*final(other), *old(other)),
{
}

/// Two nodes with one token, after the one has opened a connection, the other has heard
/// it, and the one has heard the answer, know each other by name and with all their
/// capabilities.
pub proof fn law_connected_nodes_know_each_other(
    client: &mut WsClusterTransport,
    client_session: &mut WsSession,
    server: &mut WsClusterTransport,
    server_session: &mut WsSession,
    sent: u64,
    accepted: u64,
    received: u64,
    hello: ClusterMessage,
    ack: ClusterMessage,
    action: WsAction,
)
    requires
        old(client).node_token@ == old(server).node_token@,
        !old(client_session).is_server,
        old(client_session).phase is Handshaking,
        old(server_session).is_server,
        old(server_session).phase is Handshaking,
        call_ensures(
            WsClusterTransport::opening_at,
            (&*old(client), &*old(client_session), sent),
            Some(hello),
        ),
        call_ensures(
            WsClusterTransport::handle_websocket_at,
            (server, server_session, WsEvent::Message(hello), accepted),
            WsAction::Reply(ack),
        ),
        call_ensures(
            WsClusterTransport::handle_websocket_at,
            (client, client_session, WsEvent::Message(ack), received),
            action,
        ),
    ensures
        ({
            let client_id = old(client).node_id;
            let server_id = old(server).node_id;
            let known_to_server = final(server).peers@[client_id.0];
            let known_to_client = final(client).peers@[server_id.0];
            &&& final(server).peers@.contains_key(client_id.0)
            &&& known_to_server.id == client_id
            &&& known_to_server.name == old(client).node_name@
            &&& known_to_server.capabilities == old(client).capabilities.deep_view()
            &&& known_to_server.last_heartbeat_secs == accepted
            &&& final(server_session).phase == WsPhase::Greeted(client_id)
            &&& final(client).peers@.contains_key(server_id.0)
            &&& known_to_client.id == server_id
            &&& known_to_client.name == old(server).node_name@
            &&& known_to_client.capabilities == old(server).capabilities.deep_view()
            &&& known_to_client.last_heartbeat_secs == received
            &&& final(client_session).phase == WsPhase::Greeted(server_id)
        }),
{
}

/// What ends a handshake ends it with its own error, and nothing is registered; what has
/// no part in one is passed over.
pub proof fn law_handshake_ends_with_its_error(
    node: &mut WsClusterTransport,
    session: &mut WsSession,
    event: WsEvent,
    now: u64,
    action: WsAction,
)
    requires
        old(session).phase is Handshaking,
        !(event matches WsEvent::Message(message) && (message is Handshake || message
            is HandshakeAck)),
        call_ensures(
            WsClusterTransport::handle_websocket_at,
            (node, session, event, now),
            action,
        ),
    ensures
        unchanged(*final(node), *old(node)),
        final(session).is_server == old(session).is_server,
        match event {
            WsEvent::Message(ClusterMessage::HandshakeNack { reason }) => {
                &&& action matches WsAction::Fail(WsError::Rejected(why))
                &&& why@ == reason@
            },
            WsEvent::Close => action matches WsAction::Fail(WsError::Closed),
            WsEvent::Failed(error) => {
                &&& action matches WsAction::Fail(WsError::Socket(why))
                &&& why@ == error@
            },
            WsEvent::Ended => action matches WsAction::Fail(WsError::ClosedBeforeHandshake),
            WsEvent::Message(_) | WsEvent::Undecodable | WsEvent::Other => action is Wait,
        },
        action is Wait ==> final(session).phase is Handshaking,
        !(action is Wait) ==> final(session).phase is Closed,
{
}

/// Once a link stands, every message of the peer is handed on whole and in its name, and
/// nothing else changes anything until the connection is over; then the peer is forgotten
/// and its link with it, and all others are as before.
pub proof fn law_linked_peer_is_heard_until_the_end(
    node: &mut WsClusterTransport,
    session: &mut WsSession,
    remote: NodeId,
    event: WsEvent,
    now: u64,
    action: WsAction,
)
    requires
        old(session).phase == WsPhase::Linked(remote),
        call_ensures(
            WsClusterTransport::handle_websocket_at,
            (node, session, event, now),
            action,
        ),
    ensures
        same_self(*final(node), *old(node)),
        final(session).is_server == old(session).is_server,
        match event {
            WsEvent::Message(message) => {
                &&& action matches WsAction::Deliver { source, message: handed }
                &&& source == remote
                &&& same_message(handed, message)
                &&& *final(session) == *old(session)
                &&& unchanged(*final(node), *old(node))
            },
            WsEvent::Undecodable | WsEvent::Other => {
                &&& action is Wait
                &&& *final(session) == *old(session)
                &&& unchanged(*final(node), *old(node))
            },
            WsEvent::Close | WsEvent::Failed(_) | WsEvent::Ended => {
                &&& action is Finish
                &&& final(session).phase is Closed
                &&& !final(node).peers@.contains_key(remote.0)
                &&& !final(node).peer_senders@.contains_key(remote.0)
                &&& forall|k: u128|
                    k != remote.0 ==> (#[trigger] final(node).peers@.contains_key(k) <==> old(
                        node,
                    ).peers@.contains_key(k)) && (old(node).peers@.contains_key(k)
                        ==> final(node).peers@[k] == old(node).peers@[k])
                &&& forall|k: u128|
                    k != remote.0 ==> (#[trigger] final(node).peer_senders@.contains_key(k) <==> old(
                        node,
                    ).peer_senders@.contains_key(k)) && (old(node).peer_senders@.contains_key(k)
                        ==> final(node).peer_senders@[k] == old(node).peer_senders@[k])
            },
        },
{
    if let (WsEvent::Message(message), WsAction::Deliver { message: handed, .. }) = (event, action) {
        law_messages_look_like_what_they_say(handed, message);
    }
}

/// Before it has a link, and after it is over, a connection takes no event.
pub proof fn law_connection_without_link_takes_no_event(
    node: &mut WsClusterTransport,
    session: &mut WsSession,
    event: WsEvent,
    now: u64,
    action: WsAction,
)
    requires
        old(session).phase is Greeted || old(session).phase is Closed,
        call_ensures(
            WsClusterTransport::handle_websocket_at,
            (node, session, event, now),
            action,
        ),
    ensures
        action is Wait,
        *final(session) == *old(session),
        unchanged(*final(node), *old(node)),
{
}

/// What is registered just now is registered at a reading of the clock, and the same
/// tokens are asked for as at any moment.
pub proof fn law_connection_just_now(
    node: &mut WsClusterTransport,
    session: &mut WsSession,
    info: NodeInfo,
    token: String,
    action: WsAction,
)
    requires
        old(session).is_server,
        old(session).phase is Handshaking,
        call_ensures(
            WsClusterTransport::handle_websocket,
            (node, session, WsEvent::Message(ClusterMessage::Handshake { node_info: info, token })),
            action,
        ),
    ensures
        token@ == old(node).node_token@ ==> {
            &&& action matches WsAction::Reply(ClusterMessage::HandshakeAck { node_info })
            &&& introduces_itself(*old(node), node_info)
            &&& clock_reads(node_info.last_heartbeat_secs)
            &&& gained(*final(node), *old(node), info, node_info.last_heartbeat_secs)
            &&& final(session).phase == WsPhase::Greeted(info.id)
        },
        token@ != old(node).node_token@ ==> {
            &&& action is Refuse
            &&& unchanged(*final(node), *old(node))
            &&& final(session).phase is Closed
        },
{
}

/// Once a link stands, what is heard just now is handed on whole, and the end of the
/// connection ends it.
pub proof fn law_link_just_now(
    node: &mut WsClusterTransport,
    session: &mut WsSession,
    remote: NodeId,
    event: WsEvent,
    action: WsAction,
)
    requires
        old(session).phase == WsPhase::Linked(remote),
        call_ensures(WsClusterTransport::handle_websocket, (node, session, event), action),
    ensures
        event matches WsEvent::Message(message) ==> (action matches WsAction::Deliver {
            source,
            message: handed,
        } && source == remote && same_message(handed, message)),
        event is Undecodable || event is Other ==> action is Wait,
        event is Close || event is Failed || event is Ended ==> {
            &&& action is Finish
            &&& final(session).phase is Closed
            &&& !final(node).peers@.contains_key(remote.0)
            &&& !final(node).peer_senders@.contains_key(remote.0)
        },
        !(event is Close || event is Failed || event is Ended) ==> *final(session) == *old(session)
            && unchanged(*final(node), *old(node)),
        same_self(*final(node), *old(node)),
{
    if let (WsEvent::Message(message), WsAction::Deliver { message: handed, .. }) = (event, action) {
        law_messages_look_like_what_they_say(handed, message);
    }
}

/// A peer that was greeted gets the link it is given and is reached over it from then on;
/// the links of others stay. No other connection gets a link.
pub proof fn law_greeted_peer_is_reached_over_its_link(
    node: &mut WsClusterTransport,
    session: &mut WsSession,
    link: u64,
    given: Option<NodeId>,
    target: NodeId,
    before: Result<u64, WsError>,
    after: Result<u64, WsError>,
)
    requires
        call_ensures(WsClusterTransport::send_to, (&*old(node), &target), before),
        call_ensures(WsClusterTransport::open_link, (node, session, link), given),
        call_ensures(WsClusterTransport::send_to, (&*final(node), &target), after),
    ensures
        given is Some <==> old(session).phase is Greeted,
        given matches Some(id) ==> {
            &&& old(session).phase == WsPhase::Greeted(id)
            &&& final(session).phase == WsPhase::Linked(id)
            &&& target == id ==> after == Ok::<u64, WsError>(link)
        },
        given is None ==> *final(session) == *old(session),
        given != Some(target) ==> (after is Ok <==> before is Ok) && (after matches Ok(l)
            ==> before == Ok::<u64, WsError>(l)),
        final(session).is_server == old(session).is_server,
        same_self(*final(node), *old(node)),
        final(node).peers@ == old(node).peers@,
{
}

/// A message to a peer goes over its link; to anybody else it does not go, and the error
/// says to whom.
pub proof fn law_message_goes_over_the_link_of_its_target(
    node: WsClusterTransport,
    target: NodeId,
    link: Result<u64, WsError>,
)
    requires
        call_ensures(WsClusterTransport::send_to, (&node, &target), link),
    ensures
        node.peer_senders@.contains_key(target.0) <==> link is Ok,
        link matches Ok(link) ==> link == node.peer_senders@[target.0],
        link is Err ==> (link matches Err(WsError::PeerNotFound(id)) && id == target),
{
}

/// A message to all goes over the link of every peer, over no other, and over as many
/// links as there are peers.
pub proof fn law_broadcast_goes_over_every_link(node: WsClusterTransport, links: Vec<u64>)
    requires
        call_ensures(WsClusterTransport::broadcast, (&node,), links),
    ensures
        links.len() == node.peer_senders@.len(),
        forall|k: u128| #[trigger]
            node.peer_senders@.contains_key(k) ==> links@.contains(node.peer_senders@[k]),
        forall|link: u64| #[trigger]
            links@.contains(link) ==> exists|k: u128| #[trigger]
                node.peer_senders@.contains_key(k) && node.peer_senders@[k] == link,
{
    let senders = node.peer_senders@;
    assert(all_links(links@, senders));
    let ids = choose|ids: Seq<u128>|
        {
            &&& #[trigger] ids.no_duplicates()
            &&& ids.to_set() == senders.dom()
            &&& links@ == ids.map_values(|id: u128| senders[id])
        };
    ids.unique_seq_to_set();
    assert forall|k: u128| #[trigger] senders.contains_key(k) implies links@.contains(senders[k]) by {
        assert(ids.to_set().contains(k));
        let i = choose|i: int| 0 <= i < ids.len() && ids[i] == k;
        assert(links@[i] == senders[k]);
    }
    assert forall|link: u64| #[trigger] links@.contains(link) implies exists|k: u128| #[trigger]
        senders.contains_key(k) && senders[k] == link by {
        let i = choose|i: int| 0 <= i < links@.len() && links@[i] == link;
        assert(links@[i] == senders[ids[i]]);
        assert(ids.to_set().contains(ids[i]));
        assert(senders.contains_key(ids[i]));
    }
}

/// The list of peers holds every registered peer as it is registered, nobody else, and
/// nobody twice.
pub proof fn law_peers_are_listed_once(node: WsClusterTransport, list: Vec<NodeInfo>)
    requires
        call_ensures(WsClusterTransport::get_peers, (&node,), list),
    ensures
        forall|k: u128| #[trigger]
            node.peers@.contains_key(k) ==> exists|i: int|
                0 <= i < list.len() && (#[trigger] list[i])@ == node.peers@[k],
        forall|i: int|
            0 <= i < list.len() ==> node.peers@.contains_key((#[trigger] list[i]).id.0)
                && node.peers@[list[i].id.0] == list[i]@,
        forall|i: int, j: int|
            0 <= i < j < list.len() ==> (#[trigger] list[i]).id != (#[trigger] list[j]).id,
        list.len() == node.peers@.len(),
{
    let seen = list.deep_view();
    assert(seen.len() == list.len());
    assert forall|k: u128| #[trigger] node.peers@.contains_key(k) implies exists|i: int|
        0 <= i < list.len() && (#[trigger] list[i])@ == node.peers@[k] by {
        let i = choose|i: int| 0 <= i < seen.len() && #[trigger] seen[i] == node.peers@[k];
        assert(list[i]@ == node.peers@[k]);
    }
    assert forall|i: int| 0 <= i < list.len() implies node.peers@.contains_key(
        (#[trigger] list[i]).id.0,
    ) && node.peers@[list[i].id.0] == list[i]@ by {
        assert(seen[i] == list[i]@);
        assert(node.peers@.contains_key(seen[i].id.0));
    }
    assert forall|i: int, j: int| 0 <= i < j < list.len() implies (#[trigger] list[i]).id != (
    #[trigger] list[j]).id by {
        assert(seen[i].id != seen[j].id);
    }
}

/// A coordinator is found, and the node said to have one, exactly if some registered peer
/// is one; the one that is found is registered and is one.
pub proof fn law_coordinator_is_a_registered_peer(
    node: WsClusterTransport,
    found: Option<NodeInfo>,
    is: bool,
)
    requires
        call_ensures(WsClusterTransport::get_coordinator, (&node,), found),
        call_ensures(WsClusterTransport::is_coordinator, (&node,), is),
    ensures
        is <==> exists|k: u128| #[trigger]
            node.peers@.contains_key(k) && node.peers@[k].role == ClusterNodeRole::Coordinator,
        found is Some <==> is,
        found matches Some(info) ==> {
            &&& info.role == ClusterNodeRole::Coordinator
            &&& node.peers@.contains_key(info.id.0)
            &&& node.peers@[info.id.0] == info@
        },
{
}

/// A wait lasts as long as the timeout: before it is over a coordinator is found if there
/// is one and looked for again if there is none, and after that it has timed out.
pub proof fn law_wait_ends_with_the_timeout(
    node: WsClusterTransport,
    elapsed: u128,
    timeout_secs: u64,
    there_is: bool,
    wait: CoordinatorWait,
)
    requires
        call_ensures(WsClusterTransport::is_coordinator, (&node,), there_is),
        call_ensures(
            WsClusterTransport::wait_for_coordinator,
            (&node, elapsed, timeout_secs),
            wait,
        ),
    ensures
        elapsed >= timeout_secs * 1_000_000_000 ==> wait matches CoordinatorWait::TimedOut(
            WsError::CoordinatorTimeout,
        ),
        elapsed < timeout_secs * 1_000_000_000 && !there_is ==> wait is Retry,
        elapsed < timeout_secs * 1_000_000_000 && there_is ==> {
            &&& wait matches CoordinatorWait::Found(info)
            &&& info.role == ClusterNodeRole::Coordinator
            &&& node.peers@.contains_key(info.id.0)
            &&& node.peers@[info.id.0] == info@
        },
{
    if let CoordinatorWait::Found(info) = wait {
        assert(node.peers@.contains_key(info.id.0));
    }
}

/// At a heartbeat a peer stays, as it is, exactly if it was heard less than three
/// intervals before, whatever the interval; the links of all stay.
pub proof fn law_peers_silent_for_three_intervals_are_dropped(
    node: &mut WsClusterTransport,
    interval_secs: u64,
    now: u64,
)
    requires
        interval_secs * 3 <= u64::MAX,
        call_ensures(WsClusterTransport::drop_silent_peers_at, (node, interval_secs, now), ()),
    ensures
        forall|k: u128| #[trigger]
            final(node).peers@.contains_key(k) <==> old(node).peers@.contains_key(k)
                && interval_secs > 0 && now < old(node).peers@[k].last_heartbeat_secs + 3
                * interval_secs,
        forall|k: u128| #[trigger]
            final(node).peers@.contains_key(k) ==> final(node).peers@[k] == old(node).peers@[k],
        final(node).peer_senders@ == old(node).peer_senders@,
        same_self(*final(node), *old(node)),
{
}

/// The same at a heartbeat just now, by a reading of the clock.
pub proof fn law_silent_peers_are_dropped_by_the_clock(
    node: &mut WsClusterTransport,
    interval_secs: u64,
)
    requires
        interval_secs * 3 <= u64::MAX,
        call_ensures(WsClusterTransport::drop_silent_peers, (node, interval_secs), ()),
    ensures
        exists|now: u64| #[trigger]
            clock_reads(now) && forall|k: u128| #[trigger]
                final(node).peers@.contains_key(k) <==> old(node).peers@.contains_key(k)
                    && interval_secs > 0 && now < old(node).peers@[k].last_heartbeat_secs + 3
                    * interval_secs,
        forall|k: u128| #[trigger]
            final(node).peers@.contains_key(k) ==> final(node).peers@[k] == old(node).peers@[k],
        final(node).peer_senders@ == old(node).peer_senders@,
        same_self(*final(node), *old(node)),
{
}

/// A heartbeat names the node and claims no load.
pub proof fn law_heartbeat_names_the_node(node: WsClusterTransport, message: ClusterMessage)
    requires
        call_ensures(WsClusterTransport::heartbeat, (&node,), message),
    ensures
        message == (ClusterMessage::Heartbeat { node_id: node.node_id, load_score: 0 }),
{
}

/// Starting and disconnecting turn the node on and off and touch nothing else; what it
/// says of itself is what it is.
pub proof fn law_node_is_turned_on_and_off(
    started: &mut WsClusterTransport,
    stopped: &mut WsClusterTransport,
    node: WsClusterTransport,
    running: bool,
    id: NodeId,
    name: &str,
)
    requires
        call_ensures(WsClusterTransport::start_server, (started,), ()),
        call_ensures(WsClusterTransport::disconnect, (stopped,), ()),
        call_ensures(WsClusterTransport::is_running, (&node,), running),
        call_ensures(WsClusterTransport::node_id, (&node,), id),
        call_ensures(WsClusterTransport::node_name, (&node,), name),
    ensures
        final(started).running,
        final(started).peers@ == old(started).peers@,
        final(started).peer_senders@ == old(started).peer_senders@,
        final(started).node_token@ == old(started).node_token@,
        final(started).node_id == old(started).node_id,
        !final(stopped).running,
        final(stopped).peers@ == old(stopped).peers@,
        final(stopped).peer_senders@ == old(stopped).peer_senders@,
        final(stopped).node_token@ == old(stopped).node_token@,
        final(stopped).node_id == old(stopped).node_id,
        running == node.running,
        id == node.node_id,
        name@ == node.node_name@,
{
}

/// A peer's endpoint holds its address whole.
pub proof fn law_peer_url_holds_the_address(addr: &str, url: String)
    requires
        call_ensures(WsClusterTransport::peer_url, (addr,), url),
    ensures
        url@.len() == 5 + addr@.len() + 11,
        url@.take(5) == "ws://"@,
        url@.subrange(5, 5int + addr@.len()) == addr@,
        url@.skip(5int + addr@.len()) == "/ws/cluster"@,
{
    reveal_strlit("ws://");
    reveal_strlit("/ws/cluster");
    assert(url@.take(5) =~= "ws://"@);
    assert(url@.subrange(5, 5int + addr@.len()) =~= addr@);
    assert(url@.skip(5int + addr@.len()) =~= "/ws/cluster"@);
}

/// A new connection is at its handshake, on the side it is said to be on.
pub proof fn law_new_connection_is_at_its_handshake(is_server: bool, session: WsSession)
    requires
        call_ensures(WsSession::new, (is_server,), session),
    ensures
        session.is_server == is_server,
        session.phase is Handshaking,
{
}

/// An error says in words what went wrong, with the reason or the id that it holds.
pub proof fn law_errors_say_what_went_wrong(error: WsError, words: String)
    requires
        call_ensures(WsError::to_string, (&error,), words),
    ensures
        match error {
            WsError::ClosedBeforeHandshake => words@ == "connection closed before handshake"@,
            WsError::Closed => words@ == "connection closed"@,
            WsError::Socket(why) => words@ == "websocket error: "@ + why@,
            WsError::InvalidToken => words@ == "invalid cluster token"@,
            WsError::Rejected(reason) => words@ == "handshake rejected: "@ + reason@,
            WsError::PeerNotFound(id) => forall|text: String|
                call_ensures(NodeId::to_string, (&id,), text) ==> words@ == "Peer "@ + text@
                    + " not found"@,
            WsError::CoordinatorTimeout => words@ == "Timeout waiting for coordinator"@,
        },
{
}

/// A client that is acknowledged just now registers the sender, at a reading of the clock;
/// a server is as before.
pub proof fn law_acknowledgement_just_now(
    node: &mut WsClusterTransport,
    session: &mut WsSession,
    info: NodeInfo,
    action: WsAction,
)
    requires
        old(session).phase is Handshaking,
        call_ensures(
            WsClusterTransport::handle_websocket,
            (node, session, WsEvent::Message(ClusterMessage::HandshakeAck { node_info: info })),
            action,
        ),
    ensures
        action is Wait,
        !old(session).is_server ==> {
            &&& final(session).phase == WsPhase::Greeted(info.id)
            &&& exists|now: u64| #[trigger]
                clock_reads(now) && gained(*final(node), *old(node), info, now)
        },
        old(session).is_server ==> *final(session) == *old(session) && unchanged(
            *final(node),
            *old(node),
        ),
{
}

/// What ends a handshake just now ends it with its own error, and nothing is registered.
pub proof fn law_handshake_ends_just_now(
    node: &mut WsClusterTransport,
    session: &mut WsSession,
    event: WsEvent,
    action: WsAction,
)
    requires
        old(session).phase is Handshaking,
        !(event matches WsEvent::Message(message) && (message is Handshake || message
            is HandshakeAck)),
        call_ensures(WsClusterTransport::handle_websocket, (node, session, event), action),
    ensures
        unchanged(*final(node), *old(node)),
        match event {
            WsEvent::Message(ClusterMessage::HandshakeNack { reason }) => {
                &&& action matches WsAction::Fail(WsError::Rejected(why))
                &&& why@ == reason@
            },
            WsEvent::Close => action matches WsAction::Fail(WsError::Closed),
            WsEvent::Failed(error) => {
                &&& action matches WsAction::Fail(WsError::Socket(why))
                &&& why@ == error@
            },
            WsEvent::Ended => action matches WsAction::Fail(WsError::ClosedBeforeHandshake),
            WsEvent::Message(_) | WsEvent::Undecodable | WsEvent::Other => action is Wait,
        },
        action is Wait ==> *final(session) == *old(session),
        !(action is Wait) ==> final(session).phase is Closed,
{
}

} // verus!
