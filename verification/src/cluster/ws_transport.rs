//! Connections between nodes: the handshake, the messages after it, and the peers
//! that it leaves behind.

use std::collections::HashMap;
use vstd::prelude::*;

use crate::cluster::message::{ClusterMessage, MessageView};
use crate::cluster::node::{
    clock_reads, unix_now, NodeAddr, NodeId, NodeInfo, NodeInfoView, NANOS_PER_SEC,
};
use crate::cluster::peers;
use crate::cluster::peers::PeerTable;
use crate::config::{clone_texts, ClusterConfig, ClusterNodeRole};
use crate::text;
use crate::text::{joined, same_text};

verus! {

/// The connections of a node. The sockets themselves are known by numbers, their
/// links.
pub struct WsClusterTransport {
    pub node_id: NodeId,
    pub node_name: String,
    pub node_token: String,
    pub capabilities: Vec<String>,
    pub bind_addr: NodeAddr,
    pub peers: PeerTable,
    /// The link over which each peer is reached.
    pub peer_senders: HashMap<u128, u64>,
    pub running: bool,
}

/// A [`WsClusterTransport`] with its text as characters.
pub struct TransportView {
    pub node_id: NodeId,
    pub node_name: Seq<char>,
    pub node_token: Seq<char>,
    pub capabilities: Seq<Seq<char>>,
    pub bind_addr: NodeAddr,
    pub peers: Map<u128, NodeInfoView>,
    pub peer_senders: Map<u128, u64>,
    pub running: bool,
}

impl View for WsClusterTransport {
    type V = TransportView;

    open spec fn view(&self) -> TransportView {
        TransportView {
            node_id: self.node_id,
            node_name: self.node_name@,
            node_token: self.node_token@,
            capabilities: self.capabilities.deep_view(),
            bind_addr: self.bind_addr,
            peers: self.peers@,
            peer_senders: self.peer_senders@,
            running: self.running,
        }
    }
}

/// How far a connection has come.
#[derive(Debug, Clone, Copy, PartialEq, Eq, Structural)]
pub enum WsPhase {
    /// Neither side is known to the other yet.
    Handshaking,
    /// The other side is known and registered as a peer, but has no link yet.
    Greeted(NodeId),
    /// Messages pass.
    Linked(NodeId),
    /// Over.
    Closed,
}

/// One connection, on the side that accepted it or on the side that opened it.
#[derive(Debug, Clone, Copy, PartialEq, Eq, Structural)]
pub struct WsSession {
    pub is_server: bool,
    pub phase: WsPhase,
}

/// What comes out of a socket.
#[derive(Debug)]
pub enum WsEvent {
    Message(ClusterMessage),
    /// A text that is no message.
    Undecodable,
    /// Something that is no text.
    Other,
    /// The other side closes.
    Close,
    /// The socket fails.
    Failed(String),
    /// Nothing more will come.
    Ended,
}

/// What to do with a socket.
#[derive(Debug)]
pub enum WsAction {
    /// Wait for the next event.
    Wait,
    /// Send a message.
    Reply(ClusterMessage),
    /// Send a message if that can be done, and give up.
    Refuse { reply: ClusterMessage, error: WsError },
    /// Hand a message of a peer to those who listen.
    Deliver { source: NodeId, message: ClusterMessage },
    /// Give up.
    Fail(WsError),
    /// Stop without an error.
    Finish,
}

/// Why a connection or a request to it fails.
#[derive(Debug)]
pub enum WsError {
    ClosedBeforeHandshake,
    Closed,
    Socket(String),
    InvalidToken,
    Rejected(String),
    PeerNotFound(NodeId),
    CoordinatorTimeout,
}

/// A [`WsEvent`] with its text as characters.
pub enum WsEventView {
    Message(MessageView),
    Undecodable,
    Other,
    Close,
    Failed(Seq<char>),
    Ended,
}

/// A [`WsError`] with its text as characters.
pub enum WsErrorView {
    ClosedBeforeHandshake,
    Closed,
    Socket(Seq<char>),
    InvalidToken,
    Rejected(Seq<char>),
    PeerNotFound(NodeId),
    CoordinatorTimeout,
}

/// A [`WsAction`] with its text as characters.
pub enum WsActionView {
    Wait,
    Reply(MessageView),
    Refuse { reply: MessageView, error: WsErrorView },
    Deliver { source: NodeId, message: MessageView },
    Fail(WsErrorView),
    Finish,
}

impl View for WsEvent {
    type V = WsEventView;

    open spec fn view(&self) -> WsEventView {
        match self {
            WsEvent::Message(message) => WsEventView::Message(message@),
            WsEvent::Undecodable => WsEventView::Undecodable,
            WsEvent::Other => WsEventView::Other,
            WsEvent::Close => WsEventView::Close,
            WsEvent::Failed(why) => WsEventView::Failed(why@),
            WsEvent::Ended => WsEventView::Ended,
        }
    }
}

impl View for WsError {
    type V = WsErrorView;

    open spec fn view(&self) -> WsErrorView {
        match self {
            WsError::ClosedBeforeHandshake => WsErrorView::ClosedBeforeHandshake,
            WsError::Closed => WsErrorView::Closed,
            WsError::Socket(why) => WsErrorView::Socket(why@),
            WsError::InvalidToken => WsErrorView::InvalidToken,
            WsError::Rejected(reason) => WsErrorView::Rejected(reason@),
            WsError::PeerNotFound(id) => WsErrorView::PeerNotFound(*id),
            WsError::CoordinatorTimeout => WsErrorView::CoordinatorTimeout,
        }
    }
}

impl View for WsAction {
    type V = WsActionView;

    open spec fn view(&self) -> WsActionView {
        match self {
            WsAction::Wait => WsActionView::Wait,
            WsAction::Reply(message) => WsActionView::Reply(message@),
            WsAction::Refuse { reply, error } => WsActionView::Refuse {
                reply: reply@,
                error: error@,
            },
            WsAction::Deliver { source, message } => WsActionView::Deliver {
                source: *source,
                message: message@,
            },
            WsAction::Fail(error) => WsActionView::Fail(error@),
            WsAction::Finish => WsActionView::Finish,
        }
    }
}

impl WsErrorView {
    /// The error in words.
    pub open spec fn words(self) -> Seq<char> {
        match self {
            WsErrorView::ClosedBeforeHandshake => "connection closed before handshake"@,
            WsErrorView::Closed => "connection closed"@,
            WsErrorView::Socket(why) => "websocket error: "@ + why,
            WsErrorView::InvalidToken => "invalid cluster token"@,
            WsErrorView::Rejected(reason) => "handshake rejected: "@ + reason,
            WsErrorView::PeerNotFound(id) => "Peer "@ + text::uuid_hyphenated(id.0) + " not found"@,
            WsErrorView::CoordinatorTimeout => "Timeout waiting for coordinator"@,
        }
    }
}

impl WsError {
    /// The error in words.
    pub fn to_string(&self) -> (words: String)
        ensures
            words@ == self@.words(),
    {
        match self {
            WsError::ClosedBeforeHandshake => "connection closed before handshake".to_string(),
            WsError::Closed => "connection closed".to_string(),
            WsError::Socket(why) => joined("websocket error: ", why),
            WsError::InvalidToken => "invalid cluster token".to_string(),
            WsError::Rejected(reason) => joined("handshake rejected: ", reason),
            WsError::PeerNotFound(id) => joined(&joined("Peer ", &id.to_string()), " not found"),
            WsError::CoordinatorTimeout => "Timeout waiting for coordinator".to_string(),
        }
    }
}

impl WsSession {
    /// A connection that has just been made.
    pub open spec fn opened(is_server: bool) -> WsSession {
        WsSession { is_server, phase: WsPhase::Handshaking }
    }

    pub fn new(is_server: bool) -> (session: Self)
        ensures
            session == WsSession::opened(is_server),
    {
        WsSession { is_server, phase: WsPhase::Handshaking }
    }
}

impl TransportView {
    /// How the node introduces itself at `now`.
    pub open spec fn self_info(self, now: u64) -> NodeInfoView {
        NodeInfoView::fresh(
            self.node_id,
            self.node_name,
            NodeAddr::unspecified_spec(),
            ClusterNodeRole::Worker,
            self.capabilities,
            now,
        )
    }

    /// What the node says first on a connection that it opens.
    pub open spec fn greeting(self, now: u64) -> MessageView {
        MessageView::Handshake { node_info: self.self_info(now), token: self.node_token }
    }

    pub open spec fn with_peer(self, info: NodeInfoView) -> TransportView {
        TransportView { peers: self.peers.insert(info.id.0, info), ..self }
    }

    pub open spec fn with_link(self, id: NodeId, link: u64) -> TransportView {
        TransportView { peer_senders: self.peer_senders.insert(id.0, link), ..self }
    }

    /// The node after it has lost a peer.
    pub open spec fn without(self, id: NodeId) -> TransportView {
        TransportView {
            peers: self.peers.remove(id.0),
            peer_senders: self.peer_senders.remove(id.0),
            ..self
        }
    }

    /// One event of a connection whose other side is not known yet, at `now`. The
    /// side that accepted the connection checks the token of a handshake, and
    /// registers and acknowledges its sender or refuses it; the side that opened it
    /// registers whoever acknowledges.
    pub open spec fn handshake_step(self, session: WsSession, event: WsEventView, now: u64) -> (
        TransportView,
        WsSession,
        WsActionView,
    ) {
        let closed = WsSession { phase: WsPhase::Closed, ..session };
        match event {
            WsEventView::Message(MessageView::Handshake { node_info, token }) => {
                if !session.is_server {
                    (self, session, WsActionView::Wait)
                } else if token != self.node_token {
                    (
                        self,
                        closed,
                        WsActionView::Refuse {
                            reply: MessageView::HandshakeNack { reason: "invalid cluster token"@ },
                            error: WsErrorView::InvalidToken,
                        },
                    )
                } else {
                    (
                        self.with_peer(node_info.reintroduced(now)),
                        WsSession { phase: WsPhase::Greeted(node_info.id), ..session },
                        WsActionView::Reply(
                            MessageView::HandshakeAck { node_info: self.self_info(now) },
                        ),
                    )
                }
            },
            WsEventView::Message(MessageView::HandshakeAck { node_info }) => {
                if session.is_server {
                    (self, session, WsActionView::Wait)
                } else {
                    (
                        self.with_peer(node_info.reintroduced(now)),
                        WsSession { phase: WsPhase::Greeted(node_info.id), ..session },
                        WsActionView::Wait,
                    )
                }
            },
            WsEventView::Message(MessageView::HandshakeNack { reason }) => (
                self,
                closed,
                WsActionView::Fail(WsErrorView::Rejected(reason)),
            ),
            WsEventView::Message(_) | WsEventView::Undecodable | WsEventView::Other => (
                self,
                session,
                WsActionView::Wait,
            ),
            WsEventView::Close => (self, closed, WsActionView::Fail(WsErrorView::Closed)),
            WsEventView::Failed(why) => (
                self,
                closed,
                WsActionView::Fail(WsErrorView::Socket(why)),
            ),
            WsEventView::Ended => (
                self,
                closed,
                WsActionView::Fail(WsErrorView::ClosedBeforeHandshake),
            ),
        }
    }

    /// One event of a connection to the peer `remote`: its messages are handed on,
    /// and when the connection is over the peer is forgotten.
    pub open spec fn linked_step(self, session: WsSession, remote: NodeId, event: WsEventView) -> (
        TransportView,
        WsSession,
        WsActionView,
    ) {
        match event {
            WsEventView::Message(message) => (
                self,
                session,
                WsActionView::Deliver { source: remote, message },
            ),
            WsEventView::Undecodable | WsEventView::Other => (self, session, WsActionView::Wait),
            WsEventView::Close | WsEventView::Failed(_) | WsEventView::Ended => (
                self.without(remote),
                WsSession { phase: WsPhase::Closed, ..session },
                WsActionView::Finish,
            ),
        }
    }

    /// One event of a connection. Nothing comes of one that has no link yet or is
    /// over.
    pub open spec fn step(self, session: WsSession, event: WsEventView, now: u64) -> (
        TransportView,
        WsSession,
        WsActionView,
    ) {
        match session.phase {
            WsPhase::Handshaking => self.handshake_step(session, event, now),
            WsPhase::Linked(remote) => self.linked_step(session, remote, event),
            _ => (self, session, WsActionView::Wait),
        }
    }
}

impl WsClusterTransport {
    pub open spec fn wf(&self) -> bool {
        self.peers.wf()
    }

    /// A node without connections, to listen at `bind_addr`. Without a configured
    /// token the token is empty.
    pub fn new(config: &ClusterConfig, node_id: NodeId, node_name: String, bind_addr: NodeAddr) -> (transport:
        Self)
        ensures
            transport.wf(),
            transport@ == (TransportView {
                node_id,
                node_name: node_name@,
                node_token: match config@.node_token {
                    Some(token) => token,
                    None => Seq::empty(),
                },
                capabilities: config@.capabilities,
                bind_addr,
                peers: Map::empty(),
                peer_senders: Map::empty(),
                running: false,
            }),
    {
        let node_token = match &config.node_token {
            Some(token) => token.clone(),
            None => String::new(),
        };
        WsClusterTransport {
            node_id,
            node_name,
            node_token,
            capabilities: clone_texts(&config.capabilities),
            bind_addr,
            peers: PeerTable::new(),
            peer_senders: HashMap::new(),
            running: false,
        }
    }

    /// How the node introduces itself at `now`.
    fn self_info(&self, now: u64) -> (info: NodeInfo)
        ensures
            info@ == self@.self_info(now),
    {
        NodeInfo::new_at(
            self.node_id,
            self.node_name.clone(),
            NodeAddr::unspecified(),
            ClusterNodeRole::Worker,
            clone_texts(&self.capabilities),
            now,
        )
    }

    /// The first message on a connection at `now`: the side that opened it greets.
    pub fn opening_at(&self, session: &WsSession, now: u64) -> (message: Option<ClusterMessage>)
        ensures
            message.deep_view() == (if session.is_server {
                None
            } else {
                Some(self@.greeting(now))
            }),
    {
        if session.is_server {
            None
        } else {
            Some(ClusterMessage::handshake(self.self_info(now), self.node_token.clone()))
        }
    }

    /// The first message on a connection, as [`Self::opening_at`] gives it just now.
    pub fn opening(&self, session: &WsSession) -> (message: Option<ClusterMessage>)
        ensures
            message is Some <==> !session.is_server,
            message matches Some(message) ==> exists|now: u64|
                clock_reads(now) && message@ == #[trigger] self@.greeting(now),
    {
        self.opening_at(session, unix_now())
    }

    /// Takes one event of a connection at `now`, in seconds since the Unix epoch.
    pub fn handle_websocket_at(&mut self, session: &mut WsSession, event: WsEvent, now: u64) -> (action:
        WsAction)
        requires
            old(self).wf(),
        ensures
            final(self).wf(),
            (final(self)@, *final(session), action@) == old(self)@.step(*old(session), event@, now),
    {
        match session.phase {
            WsPhase::Handshaking => self.handle_handshake(session, event, now),
            WsPhase::Linked(remote) => self.handle_link(session, remote, event),
            _ => WsAction::Wait,
        }
    }

    /// Takes one event of a connection just now.
    pub fn handle_websocket(&mut self, session: &mut WsSession, event: WsEvent) -> (action: WsAction)
        requires
            old(self).wf(),
        ensures
            final(self).wf(),
            exists|now: u64|
                clock_reads(now) && (final(self)@, *final(session), action@) == #[trigger] old(self)@.step(
                    *old(session),
                    event@,
                    now,
                ),
    {
        self.handle_websocket_at(session, event, unix_now())
    }

    fn handle_handshake(&mut self, session: &mut WsSession, event: WsEvent, now: u64) -> (action: WsAction)
        requires
            old(self).wf(),
        ensures
            final(self).wf(),
            (final(self)@, *final(session), action@) == old(self)@.handshake_step(
                *old(session),
                event@,
                now,
            ),
    {
        match event {
            WsEvent::Message(ClusterMessage::Handshake { node_info, token }) => {
                if !session.is_server {
                    return WsAction::Wait;
                }
                if !same_text(&token, &self.node_token) {
                    session.phase = WsPhase::Closed;
                    return WsAction::Refuse {
                        reply: ClusterMessage::handshake_nack("invalid cluster token"),
                        error: WsError::InvalidToken,
                    };
                }
                let ack = ClusterMessage::handshake_ack(self.self_info(now));
                session.phase = WsPhase::Greeted(node_info.id);
                self.register(node_info, now);
                WsAction::Reply(ack)
            },
            WsEvent::Message(ClusterMessage::HandshakeAck { node_info }) => {
                if session.is_server {
                    return WsAction::Wait;
                }
                session.phase = WsPhase::Greeted(node_info.id);
                self.register(node_info, now);
                WsAction::Wait
            },
            WsEvent::Message(ClusterMessage::HandshakeNack { reason }) => {
                session.phase = WsPhase::Closed;
                WsAction::Fail(WsError::Rejected(reason))
            },
            WsEvent::Message(_) | WsEvent::Undecodable | WsEvent::Other => WsAction::Wait,
            WsEvent::Close => {
                session.phase = WsPhase::Closed;
                WsAction::Fail(WsError::Closed)
            },
            WsEvent::Failed(why) => {
                session.phase = WsPhase::Closed;
                WsAction::Fail(WsError::Socket(why))
            },
            WsEvent::Ended => {
                session.phase = WsPhase::Closed;
                WsAction::Fail(WsError::ClosedBeforeHandshake)
            },
        }
    }

    /// Registers a peer as it introduced itself.
    fn register(&mut self, info: NodeInfo, now: u64)
        requires
            old(self).wf(),
        ensures
            final(self).wf(),
            final(self)@ == old(self)@.with_peer(info@.reintroduced(now)),
    {
        let peer = NodeInfo::new_at(info.id, info.name, info.addr, info.role, info.capabilities, now);
        self.peers.insert(peer);
    }

    fn handle_link(&mut self, session: &mut WsSession, remote: NodeId, event: WsEvent) -> (action: WsAction)
        requires
            old(self).wf(),
        ensures
            final(self).wf(),
            (final(self)@, *final(session), action@) == old(self)@.linked_step(
                *old(session),
                remote,
                event@,
            ),
    {
        match event {
            WsEvent::Message(message) => WsAction::Deliver { source: remote, message },
            WsEvent::Undecodable | WsEvent::Other => WsAction::Wait,
            WsEvent::Close | WsEvent::Failed(_) | WsEvent::Ended => {
                self.peer_senders.remove(&remote.0);
                self.peers.remove(&remote);
                session.phase = WsPhase::Closed;
                WsAction::Finish
            },
        }
    }

    /// Gives a connection whose other side is known the link over which that side is
    /// reached from now on. Returns who it is, and `None` where the connection is in
    /// another phase and nothing happens.
    pub fn open_link(&mut self, session: &mut WsSession, link: u64) -> (remote: Option<NodeId>)
        requires
            old(self).wf(),
        ensures
            final(self).wf(),
            match old(session).phase {
                WsPhase::Greeted(id) => {
                    &&& remote == Some(id)
                    &&& final(self)@ == old(self)@.with_link(id, link)
                    &&& *final(session) == WsSession { phase: WsPhase::Linked(id), ..*old(session) }
                },
                _ => {
                    &&& remote is None
                    &&& final(self)@ == old(self)@
                    &&& *final(session) == *old(session)
                },
            },
    {
        match session.phase {
            WsPhase::Greeted(id) => {
                self.peer_senders.insert(id.0, link);
                session.phase = WsPhase::Linked(id);
                Some(id)
            },
            _ => None,
        }
    }
}

/// Whether `links` holds the link of every peer once, in some order.
pub open spec fn all_links(links: Seq<u64>, senders: Map<u128, u64>) -> bool {
    exists|ids: Seq<u128>|
        {
            &&& #[trigger] ids.no_duplicates()
            &&& ids.to_set() == senders.dom()
            &&& links == ids.map_values(|id: u128| senders[id])
        }
}

/// What to do while waiting for a coordinator.
#[derive(Debug)]
pub enum CoordinatorWait {
    Found(NodeInfo),
    /// Look again a little later.
    Retry,
    TimedOut(WsError),
}

/// The milliseconds between two looks for a coordinator.
pub const COORDINATOR_POLL_MILLIS: u64 = 100;

/// The heartbeat intervals after which a silent peer is dropped.
pub const SILENT_INTERVALS: u64 = 3;

impl WsClusterTransport {
    pub fn node_id(&self) -> (id: NodeId)
        ensures
            id == self@.node_id,
    {
        self.node_id
    }

    pub fn node_name(&self) -> (name: &str)
        ensures
            name@ == self@.node_name,
    {
        self.node_name.as_str()
    }

    /// The address of a peer's WebSocket endpoint.
    pub fn peer_url(addr: &str) -> (url: String)
        ensures
            url@ == "ws://"@ + addr@ + "/ws/cluster"@,
    {
        joined(&joined("ws://", addr), "/ws/cluster")
    }

    /// Begins to accept connections.
    pub fn start_server(&mut self)
        requires
            old(self).wf(),
        ensures
            final(self).wf(),
            final(self)@ == (TransportView { running: true, ..old(self)@ }),
    {
        self.running = true;
    }

    /// Accepts no more connections. Those that stand are not touched.
    pub fn disconnect(&mut self)
        requires
            old(self).wf(),
        ensures
            final(self).wf(),
            final(self)@ == (TransportView { running: false, ..old(self)@ }),
    {
        self.running = false;
    }

    /// Whether connections are accepted.
    pub fn is_running(&self) -> (running: bool)
        ensures
            running == self@.running,
    {
        self.running
    }

    /// The link over which a message to `target` goes, and an error where there is
    /// none.
    pub fn send_to(&self, target: &NodeId) -> (link: Result<u64, WsError>)
        ensures
            link matches Ok(link) ==> self@.peer_senders.contains_key(target.0)
                && self@.peer_senders[target.0] == link,
            link matches Err(error) ==> !self@.peer_senders.contains_key(target.0) && error@
                == WsErrorView::PeerNotFound(*target),
    {
        match self.peer_senders.get(&target.0) {
            Some(link) => Ok(*link),
            None => Err(WsError::PeerNotFound(*target)),
        }
    }

    /// The links over which a message to all peers goes.
    pub fn broadcast(&self) -> (links: Vec<u64>)
        ensures
            all_links(links@, self@.peer_senders),
    {
        let mut links: Vec<u64> = Vec::new();
        let entries = self.peer_senders.iter();
        let ghost pairs = vstd::std_specs::iter::IteratorSpec::remaining(&entries);
        for entry in it: entries
            invariant
                it.seq() == pairs,
                links.len() == it.index(),
                forall|i: int| 0 <= i < it.index() ==> (#[trigger] links[i]) == *pairs[i].1,
        {
            links.push(*entry.1);
        }
        proof {
            let senders = self.peer_senders@;
            let ids = pairs.map_values(|pair: (&u128, &u64)| *pair.0);
            assert forall|i: int| 0 <= i < pairs.len() implies senders.contains_key(
                #[trigger] ids[i],
            ) && senders[ids[i]] == *pairs[i].1 by {
                assert(senders.contains_key(*pairs[i].0));
            }
            assert forall|i: int, j: int| 0 <= i < ids.len() && 0 <= j < ids.len() && i
                != j implies ids[i] != ids[j] by {
                if ids[i] == ids[j] {
                    assert(*pairs[i].1 == *pairs[j].1);
                    assert(pairs[i] == pairs[j]);
                }
            }
            assert(ids.no_duplicates());
            assert forall|id: u128| senders.contains_key(id) implies ids.contains(id) by {
                assert(pairs.contains((&id, &senders[id])));
                let i = choose|i: int| 0 <= i < pairs.len() && pairs[i] == (&id, &senders[id]);
                assert(ids[i] == id);
            }
            assert(ids.to_set() =~= senders.dom());
            assert(links@ =~= ids.map_values(|id: u128| senders[id]));
        }
        links
    }

    /// Every registered peer, in no particular order.
    pub fn get_peers(&self) -> (list: Vec<NodeInfo>)
        requires
            self.wf(),
        ensures
            peers::lists(list.deep_view(), self@.peers),
    {
        self.peers.list()
    }

    /// Some registered peer that is a coordinator, if any is.
    pub fn get_coordinator(&self) -> (found: Option<NodeInfo>)
        requires
            self.wf(),
        ensures
            found is Some <==> peers::has_coordinator(self@.peers),
            found matches Some(info) ==> self@.peers.contains_key(info@.id.0)
                && self@.peers[info@.id.0] == info@ && info@.role == ClusterNodeRole::Coordinator,
    {
        self.peers.find_coordinator()
    }

    /// Whether some registered peer is a coordinator.
    pub fn is_coordinator(&self) -> (is: bool)
        requires
            self.wf(),
        ensures
            is == peers::has_coordinator(self@.peers),
    {
        self.peers.find_coordinator().is_some()
    }

    /// One look for a coordinator, `elapsed` nanoseconds after the first. Once
    /// `timeout_secs` have passed the wait is over, whoever has come by then.
    pub fn wait_for_coordinator(&self, elapsed: u128, timeout_secs: u64) -> (wait: CoordinatorWait)
        requires
            self.wf(),
        ensures
            match wait {
                CoordinatorWait::Found(info) => {
                    &&& elapsed < timeout_secs * NANOS_PER_SEC
                    &&& self@.peers.contains_key(info@.id.0)
                    &&& self@.peers[info@.id.0] == info@
                    &&& info@.role == ClusterNodeRole::Coordinator
                },
                CoordinatorWait::Retry => {
                    &&& elapsed < timeout_secs * NANOS_PER_SEC
                    &&& !peers::has_coordinator(self@.peers)
                },
                CoordinatorWait::TimedOut(error) => {
                    &&& elapsed >= timeout_secs * NANOS_PER_SEC
                    &&& error@ == WsErrorView::CoordinatorTimeout
                },
            },
    {
        let limit: u128 = timeout_secs as u128 * NANOS_PER_SEC;
        if elapsed < limit {
            match self.get_coordinator() {
                Some(info) => CoordinatorWait::Found(info),
                None => CoordinatorWait::Retry,
            }
        } else {
            CoordinatorWait::TimedOut(WsError::CoordinatorTimeout)
        }
    }

    /// What the node tells its peers at every heartbeat.
    pub fn heartbeat(&self) -> (message: ClusterMessage)
        ensures
            message@ == (MessageView::Heartbeat { node_id: self@.node_id, load_score: 0 }),
    {
        ClusterMessage::heartbeat(self.node_id, 0)
    }

    /// Drops, at `now`, the peers that were silent for the heartbeat intervals that
    /// are allowed. Their links stay.
    pub fn drop_silent_peers_at(&mut self, interval_secs: u64, now: u64)
        requires
            old(self).wf(),
            interval_secs * SILENT_INTERVALS <= u64::MAX,
        ensures
            final(self).wf(),
            final(self)@ == (TransportView {
                peers: peers::fresh_peers(
                    old(self)@.peers,
                    now,
                    interval_secs * SILENT_INTERVALS,
                ),
                ..old(self)@
            }),
    {
        self.peers.keep_fresh(now, interval_secs * SILENT_INTERVALS);
    }

    /// Drops the silent peers just now.
    pub fn drop_silent_peers(&mut self, interval_secs: u64)
        requires
            old(self).wf(),
            interval_secs * SILENT_INTERVALS <= u64::MAX,
        ensures
            final(self).wf(),
            exists|now: u64|
                clock_reads(now) && final(self)@ == (TransportView {
                    peers: #[trigger] peers::fresh_peers(
                        old(self)@.peers,
                        now,
                        interval_secs * SILENT_INTERVALS,
                    ),
                    ..old(self)@
                }),
    {
        self.drop_silent_peers_at(interval_secs, unix_now());
    }
}

/// Nodes with the same token connect: the one that accepts registers the one that
/// opens and acknowledges it, and on the acknowledgement the one that opens registers
/// the one that accepted.
pub proof fn law_equal_tokens_connect(
    client: TransportView,
    server: TransportView,
    sent: u64,
    accepted: u64,
    received: u64,
)
    requires
        client.node_token == server.node_token,
    ensures
        ({
            let hello = WsEventView::Message(client.greeting(sent));
            let ack = MessageView::HandshakeAck { node_info: server.self_info(accepted) };
            let (server_after, server_session, reply) = server.step(
                WsSession::opened(true),
                hello,
                accepted,
            );
            let (client_after, client_session, action) = client.step(
                WsSession::opened(false),
                WsEventView::Message(ack),
                received,
            );
            &&& reply == WsActionView::Reply(ack)
            &&& server_session.phase == WsPhase::Greeted(client.node_id)
            &&& server_after == server.with_peer(client.self_info(accepted))
            &&& action == WsActionView::Wait
            &&& client_session.phase == WsPhase::Greeted(server.node_id)
            &&& client_after == client.with_peer(server.self_info(received))
        }),
{
}

/// Nodes with different tokens do not connect: the one that accepts refuses with the
/// reason, the one that opens fails with it, and neither registers the other.
pub proof fn law_different_tokens_do_not_connect(
    client: TransportView,
    server: TransportView,
    sent: u64,
    accepted: u64,
    received: u64,
)
    requires
        client.node_token != server.node_token,
    ensures
        ({
            let hello = WsEventView::Message(client.greeting(sent));
            let nack = MessageView::HandshakeNack { reason: "invalid cluster token"@ };
            let (server_after, server_session, reply) = server.step(
                WsSession::opened(true),
                hello,
                accepted,
            );
            let (client_after, client_session, action) = client.step(
                WsSession::opened(false),
                WsEventView::Message(nack),
                received,
            );
            &&& reply == (WsActionView::Refuse { reply: nack, error: WsErrorView::InvalidToken })
            &&& server_session.phase == WsPhase::Closed
            &&& server_after == server
            &&& action == WsActionView::Fail(WsErrorView::Rejected("invalid cluster token"@))
            &&& client_session.phase == WsPhase::Closed
            &&& client_after == client
        }),
{
}

/// Until the other side is known, its messages reach nobody and no link is given or
/// taken; after that, every message is handed on in its name.
pub proof fn law_only_known_peers_are_heard(
    transport: TransportView,
    session: WsSession,
    event: WsEventView,
    now: u64,
)
    ensures
        ({
            let (after, _, action) = transport.step(session, event, now);
            &&& action is Deliver <==> session.phase is Linked && event is Message
            &&& action matches WsActionView::Deliver { source, message } ==> session.phase
                == WsPhase::Linked(source) && event == WsEventView::Message(message)
            &&& !(session.phase is Linked) ==> after.peer_senders == transport.peer_senders
        }),
{
}

/// Whether an event is a handshake with the token of `transport`.
pub open spec fn shows_token(transport: TransportView, event: WsEventView) -> bool {
    event matches WsEventView::Message(MessageView::Handshake { token, .. }) && token
        == transport.node_token
}

/// The side that accepted a connection comes to know the other by a handshake with its
/// own token and by nothing else; whatever else comes first registers nobody.
pub proof fn law_server_admits_by_token_alone(
    transport: TransportView,
    session: WsSession,
    event: WsEventView,
    now: u64,
)
    requires
        session.is_server,
        session.phase is Handshaking,
    ensures
        ({
            let (after, next, _) = transport.step(session, event, now);
            &&& next.phase is Greeted <==> shows_token(transport, event)
            &&& !shows_token(transport, event) ==> after == transport
        }),
{
}

/// One turn of a connection: an event, when it comes, and the link that the other side
/// gets if the event makes it known.
pub struct WsTurn {
    pub event: WsEventView,
    pub now: u64,
    pub link: u64,
}

impl TransportView {
    /// The node and the connection after one turn, and what was to be done.
    pub open spec fn turn(self, session: WsSession, turn: WsTurn) -> (
        TransportView,
        WsSession,
        WsActionView,
    ) {
        let (after, next, action) = self.step(session, turn.event, turn.now);
        match next.phase {
            WsPhase::Greeted(id) => (
                after.with_link(id, turn.link),
                WsSession { phase: WsPhase::Linked(id), ..next },
                action,
            ),
            _ => (after, next, action),
        }
    }

    /// The node and the connection after a series of turns.
    pub open spec fn turns(self, session: WsSession, turns: Seq<WsTurn>) -> (
        TransportView,
        WsSession,
    )
        decreases turns.len(),
    {
        if turns.len() == 0 {
            (self, session)
        } else {
            let (before, open) = self.turns(session, turns.drop_last());
            let (after, next, _) = before.turn(open, turns.last());
            (after, next)
        }
    }
}

/// On a connection that the node accepted, whoever never shows the node's token is
/// neither registered nor given a link, and none of its messages is handed on, whatever
/// it sends and in whatever order.
pub proof fn law_server_hears_only_token_holders(
    transport: TransportView,
    turns: Seq<WsTurn>,
    last: WsTurn,
)
    requires
        forall|i: int|
            0 <= i < turns.len() ==> !shows_token(transport, (#[trigger] turns[i]).event),
        !shows_token(transport, last.event),
    ensures
        ({
            let (after, session) = transport.turns(WsSession::opened(true), turns);
            let (finally, _, action) = after.turn(session, last);
            &&& after == transport
            &&& finally == transport
            &&& session.is_server
            &&& session.phase is Handshaking || session.phase is Closed
            &&& !(action is Deliver)
        }),
    decreases turns.len(),
{
    if turns.len() > 0 {
        law_server_hears_only_token_holders(transport, turns.drop_last(), turns.last());
    }
}

/// A peer that has been given a link is reached over it, and over no other; the links
/// of other peers stay as they are.
pub proof fn law_linked_peer_is_reached(
    transport: TransportView,
    id: NodeId,
    link: u64,
    other: NodeId,
)
    ensures
        ({
            let after = transport.with_link(id, link);
            &&& after.peer_senders.contains_key(id.0)
            &&& after.peer_senders[id.0] == link
            &&& after.peers == transport.peers
            &&& other != id ==> (after.peer_senders.contains_key(other.0)
                <==> transport.peer_senders.contains_key(other.0))
            &&& other != id && transport.peer_senders.contains_key(other.0)
                ==> after.peer_senders[other.0] == transport.peer_senders[other.0]
        }),
{
}

/// A peer whose connection is over is neither registered nor reached; all others are
/// as before.
pub proof fn law_lost_peer_is_forgotten(
    transport: TransportView,
    session: WsSession,
    remote: NodeId,
    other: NodeId,
    event: WsEventView,
    now: u64,
)
    requires
        session.phase == WsPhase::Linked(remote),
        event is Close || event is Failed || event is Ended,
    ensures
        ({
            let (after, session_after, action) = transport.step(session, event, now);
            &&& !after.peers.contains_key(remote.0)
            &&& !after.peer_senders.contains_key(remote.0)
            &&& other != remote ==> (after.peers.contains_key(other.0)
                <==> transport.peers.contains_key(other.0))
            &&& other != remote && transport.peers.contains_key(other.0)
                ==> after.peers[other.0] == transport.peers[other.0]
            &&& other != remote ==> (after.peer_senders.contains_key(other.0)
                <==> transport.peer_senders.contains_key(other.0))
            &&& other != remote && transport.peer_senders.contains_key(other.0)
                ==> after.peer_senders[other.0] == transport.peer_senders[other.0]
            &&& session_after.phase == WsPhase::Closed
            &&& action == WsActionView::Finish
        }),
{
}

/// A connection with a node that was unknown before leaves no trace once it is over,
/// whichever side opened it.
pub proof fn law_connection_leaves_no_trace(
    transport: TransportView,
    is_server: bool,
    hello: WsEventView,
    id: NodeId,
    link: u64,
    event: WsEventView,
    now: u64,
    later: u64,
)
    requires
        transport.step(WsSession::opened(is_server), hello, now).1.phase == WsPhase::Greeted(id),
        !transport.peers.contains_key(id.0),
        !transport.peer_senders.contains_key(id.0),
        event is Close || event is Failed || event is Ended,
    ensures
        ({
            let (greeted, session, _) = transport.step(WsSession::opened(is_server), hello, now);
            let linked = WsSession { phase: WsPhase::Linked(id), ..session };
            let (after, _, _) = greeted.with_link(id, link).step(linked, event, later);
            after == transport
        }),
{
    let (greeted, session, _) = transport.step(WsSession::opened(is_server), hello, now);
    let linked = WsSession { phase: WsPhase::Linked(id), ..session };
    let (after, _, _) = greeted.with_link(id, link).step(linked, event, later);
    assert(after.peers =~= transport.peers);
    assert(after.peer_senders =~= transport.peer_senders);
}

/// A peer heard of at the time of a heartbeat survives it, and one that has been
/// silent for the allowed intervals or longer does not.
pub proof fn law_heartbeat_drops_exactly_the_silent(
    known: Map<u128, NodeInfoView>,
    id: NodeId,
    interval_secs: u64,
    now: u64,
)
    requires
        known.contains_key(id.0),
        interval_secs > 0,
    ensures
        ({
            let kept = peers::fresh_peers(known, now, interval_secs * SILENT_INTERVALS);
            let heard = known[id.0].last_heartbeat_secs;
            &&& heard >= now ==> kept.contains_key(id.0)
            &&& heard <= now ==> (kept.contains_key(id.0) <==> now - heard < interval_secs
                * SILENT_INTERVALS)
            &&& kept.contains_key(id.0) ==> kept[id.0] == known[id.0]
        }),
{
}

/// Dropping the silent peers a second time at the same moment drops no more.
pub proof fn law_dropping_silent_peers_twice(
    known: Map<u128, NodeInfoView>,
    interval_secs: u64,
    now: u64,
)
    ensures
        ({
            let window = interval_secs * SILENT_INTERVALS;
            let kept = peers::fresh_peers(known, now, window);
            peers::fresh_peers(kept, now, window) == kept
        }),
{
    let window = interval_secs * SILENT_INTERVALS;
    let kept = peers::fresh_peers(known, now, window);
    assert(peers::fresh_peers(kept, now, window) =~= kept);
}

} // verus!
