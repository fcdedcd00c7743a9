//! UDP-based peer discovery for cluster nodes.
//!
//! Nodes broadcast their presence periodically, and other nodes connect to them via
//! WebSocket upon discovery.

use vstd::prelude::*;

use crate::cluster::node::{NodeAddr, NANOS_PER_SEC};
use crate::config::{clone_opt_text, ClusterConfig};
use crate::outside::text_from_utf8;
use crate::text;
use crate::text::{host_port, joined, push_decimal, same_text, split};

verus! {

/// The first field of an announcement.
pub const DISCOVERY_MAGIC: &'static str = "ZEROCLAW";

/// The discovery intervals after which a silent node is forgotten.
pub const DISCOVERY_TIMEOUT_MULTIPLIER: u64 = 3;

/// The milliseconds between the discovery of a node and the attempt to connect to it.
pub const CONNECT_DELAY_MILLIS: u64 = 100;

/// The bytes of a datagram that are looked at.
pub const DATAGRAM_LIMIT: usize = 512;

/// A node that has announced itself.
#[derive(Debug)]
pub struct KnownNode {
    pub addr: String,
    pub name: String,
    /// When it was last heard, in nanoseconds since some fixed moment.
    pub last_seen: u128,
}

/// A [`KnownNode`] with its text as characters.
pub struct KnownNodeView {
    pub addr: Seq<char>,
    pub name: Seq<char>,
    pub last_seen: u128,
}

impl View for KnownNode {
    type V = KnownNodeView;

    open spec fn view(&self) -> KnownNodeView {
        KnownNodeView { addr: self.addr@, name: self.name@, last_seen: self.last_seen }
    }
}

impl DeepView for KnownNode {
    type V = KnownNodeView;

    open spec fn deep_view(&self) -> KnownNodeView {
        self@
    }
}

/// Announces this node and listens to the announcements of others.
#[derive(Debug)]
pub struct DiscoveryService {
    pub node_name: String,
    pub ws_port: u16,
    pub discovery_port: u16,
    pub bind_addr: String,
    pub node_token: Option<String>,
    pub discovery_interval_secs: u64,
    known_nodes: Vec<KnownNode>,
}

/// A [`DiscoveryService`] with its text as characters, and what it knows of each
/// address.
pub struct DiscoveryView {
    pub node_name: Seq<char>,
    pub ws_port: u16,
    pub discovery_port: u16,
    pub bind_addr: Seq<char>,
    pub node_token: Option<Seq<char>>,
    pub discovery_interval_secs: u64,
    pub known_nodes: Map<Seq<char>, (Seq<char>, u128)>,
}

/// What an announcement leads to.
#[derive(Debug)]
pub enum Discovered {
    /// It is none, or this node's own.
    Nothing,
    /// The node is known already.
    Known,
    /// The node is new, and is to be connected to at this address.
    New(String),
}

/// A [`Discovered`] with its text as characters.
pub enum DiscoveredView {
    Nothing,
    Known,
    New(Seq<char>),
}

impl View for Discovered {
    type V = DiscoveredView;

    open spec fn view(&self) -> DiscoveredView {
        match self {
            Discovered::Nothing => DiscoveredView::Nothing,
            Discovered::Known => DiscoveredView::Known,
            Discovered::New(addr) => DiscoveredView::New(addr@),
        }
    }
}

/// What the discovery loop waits for.
#[derive(Debug)]
pub enum ListenEvent {
    /// A datagram and the address of the machine that sent it.
    Datagram { bytes: Vec<u8>, sender_ip: String },
    /// Nothing could be received.
    Failed,
    /// A second has passed without a datagram.
    Tick,
}

/// A [`ListenEvent`] with its text as characters.
pub enum ListenEventView {
    Datagram { bytes: Seq<u8>, sender_ip: Seq<char> },
    Failed,
    Tick,
}

impl View for ListenEvent {
    type V = ListenEventView;

    open spec fn view(&self) -> ListenEventView {
        match self {
            ListenEvent::Datagram { bytes, sender_ip } => ListenEventView::Datagram {
                bytes: bytes@,
                sender_ip: sender_ip@,
            },
            ListenEvent::Failed => ListenEventView::Failed,
            ListenEvent::Tick => ListenEventView::Tick,
        }
    }
}

/// Whether no two nodes of the list have one address.
pub open spec fn distinct_addrs(nodes: Seq<KnownNodeView>) -> bool {
    forall|i: int, j: int|
        0 <= i < j < nodes.len() ==> (#[trigger] nodes[i]).addr != (#[trigger] nodes[j]).addr
}

/// The nodes of a list by address.
pub open spec fn by_addr(nodes: Seq<KnownNodeView>) -> Map<Seq<char>, (Seq<char>, u128)>
    decreases nodes.len(),
{
    if nodes.len() == 0 {
        Map::empty()
    } else {
        by_addr(nodes.drop_last()).insert(
            nodes.last().addr,
            (nodes.last().name, nodes.last().last_seen),
        )
    }
}

impl View for DiscoveryService {
    type V = DiscoveryView;

    closed spec fn view(&self) -> DiscoveryView {
        DiscoveryView {
            node_name: self.node_name@,
            ws_port: self.ws_port,
            discovery_port: self.discovery_port,
            bind_addr: self.bind_addr@,
            node_token: self.node_token.deep_view(),
            discovery_interval_secs: self.discovery_interval_secs,
            known_nodes: by_addr(self.known_nodes.deep_view()),
        }
    }
}

/// What a node named `name` that listens on `port` broadcasts.
pub open spec fn announcement_text(name: Seq<char>, port: u16) -> Seq<char> {
    DISCOVERY_MAGIC@.push('|') + name.push('|') + text::decimal(port as nat)
}

/// The name and the port that a message announces, if it announces any: its second
/// and third field, where the first is the magic word.
pub open spec fn announced(message: Seq<char>) -> Option<(Seq<char>, Seq<char>)> {
    let parts = text::fields(message, '|');
    if parts.len() >= 3 && parts[0] == DISCOVERY_MAGIC@ {
        Some((parts[1], parts[2]))
    } else {
        None
    }
}

impl DiscoveryView {
    /// What becomes of a message from `sender_ip` heard at `now`. An announcement by
    /// another node is noted under the address it gives; the name that was noted first
    /// stays. If the address was unknown, the node is to be connected to.
    pub open spec fn hear(self, message: Seq<char>, sender_ip: Seq<char>, now: u128) -> (
        DiscoveryView,
        DiscoveredView,
    ) {
        match announced(message) {
            Some((name, port)) if name != self.node_name => {
                let addr = text::host_port_text(sender_ip, port);
                if self.known_nodes.contains_key(addr) {
                    (
                        DiscoveryView {
                            known_nodes: self.known_nodes.insert(
                                addr,
                                (self.known_nodes[addr].0, now),
                            ),
                            ..self
                        },
                        DiscoveredView::Known,
                    )
                } else {
                    (
                        DiscoveryView {
                            known_nodes: self.known_nodes.insert(addr, (name, now)),
                            ..self
                        },
                        DiscoveredView::New(addr),
                    )
                }
            },
            _ => (self, DiscoveredView::Nothing),
        }
    }

    /// What becomes of a datagram: one that is not UTF-8 is no message.
    pub open spec fn receive(self, datagram: Seq<u8>, sender_ip: Seq<char>, now: u128) -> (
        DiscoveryView,
        DiscoveredView,
    ) {
        if vstd::utf8::valid_utf8(datagram) {
            self.hear(vstd::utf8::decode_utf8(datagram), sender_ip, now)
        } else {
            (self, DiscoveredView::Nothing)
        }
    }

    /// The service without the nodes that at `now` were last heard more than `timeout`
    /// nanoseconds ago.
    pub open spec fn cleaned(self, now: u128, timeout: u128) -> DiscoveryView {
        DiscoveryView {
            known_nodes: Map::new(
                |addr: Seq<char>|
                    self.known_nodes.contains_key(addr) && now - self.known_nodes[addr].1
                        <= timeout,
                |addr: Seq<char>| self.known_nodes[addr],
            ),
            ..self
        }
    }

    /// The nanoseconds of silence after which a node is forgotten.
    pub open spec fn timeout(self) -> int {
        self.discovery_interval_secs * DISCOVERY_TIMEOUT_MULTIPLIER * NANOS_PER_SEC
    }

    /// One turn of the discovery loop at `now`: a datagram is taken, and when none comes
    /// the silent nodes are forgotten.
    pub open spec fn listen(self, event: ListenEventView, now: u128) -> (
        DiscoveryView,
        DiscoveredView,
    ) {
        match event {
            ListenEventView::Datagram { bytes, sender_ip } => self.receive(bytes, sender_ip, now),
            ListenEventView::Failed => (self, DiscoveredView::Nothing),
            ListenEventView::Tick => (
                self.cleaned(now, self.timeout() as u128),
                DiscoveredView::Nothing,
            ),
        }
    }
}

/// An address stands in a list of distinct addresses exactly where the map has it.
proof fn lemma_by_addr(nodes: Seq<KnownNodeView>)
    requires
        distinct_addrs(nodes),
    ensures
        forall|i: int|
            0 <= i < nodes.len() ==> by_addr(nodes).contains_key((#[trigger] nodes[i]).addr)
                && by_addr(nodes)[nodes[i].addr] == (nodes[i].name, nodes[i].last_seen),
        forall|addr: Seq<char>| #[trigger]
            by_addr(nodes).contains_key(addr) ==> exists|i: int|
                0 <= i < nodes.len() && (#[trigger] nodes[i]).addr == addr,
    decreases nodes.len(),
{
    if nodes.len() > 0 {
        let init = nodes.drop_last();
        assert forall|i: int, j: int| 0 <= i < j < init.len() implies (#[trigger] init[i]).addr != (
        #[trigger] init[j]).addr by {
            assert(nodes[i].addr != nodes[j].addr);
        }
        lemma_by_addr(init);
        assert forall|i: int| 0 <= i < nodes.len() implies by_addr(nodes).contains_key(
            (#[trigger] nodes[i]).addr,
        ) && by_addr(nodes)[nodes[i].addr] == (nodes[i].name, nodes[i].last_seen) by {
            if i < nodes.len() - 1 {
                assert(init[i] == nodes[i]);
                assert(nodes[i].addr != nodes[nodes.len() - 1].addr);
            }
        }
        assert forall|addr: Seq<char>| #[trigger] by_addr(nodes).contains_key(addr) implies exists|
            i: int,
        |
            0 <= i < nodes.len() && (#[trigger] nodes[i]).addr == addr by {
            if addr == nodes.last().addr {
                assert(nodes[nodes.len() - 1].addr == addr);
            } else {
                assert(by_addr(init).contains_key(addr));
                let i = choose|i: int| 0 <= i < init.len() && (#[trigger] init[i]).addr == addr;
                assert(nodes[i] == init[i]);
            }
        }
    }
}

/// Hearing a node again changes its entry alone.
proof fn lemma_by_addr_update(nodes: Seq<KnownNodeView>, at: int, node: KnownNodeView)
    requires
        distinct_addrs(nodes),
        0 <= at < nodes.len(),
        node.addr == nodes[at].addr,
    ensures
        distinct_addrs(nodes.update(at, node)),
        by_addr(nodes.update(at, node)) == by_addr(nodes).insert(
            node.addr,
            (node.name, node.last_seen),
        ),
{
    let after = nodes.update(at, node);
    assert forall|i: int, j: int| 0 <= i < j < after.len() implies (#[trigger] after[i]).addr != (
    #[trigger] after[j]).addr by {
        assert(nodes[i].addr != nodes[j].addr);
    }
    lemma_by_addr(nodes);
    lemma_by_addr(after);
    let expected = by_addr(nodes).insert(node.addr, (node.name, node.last_seen));
    assert forall|addr: Seq<char>| #[trigger] by_addr(after).contains_key(addr)
        <==> expected.contains_key(addr) by {
        if by_addr(after).contains_key(addr) {
            let i = choose|i: int| 0 <= i < after.len() && (#[trigger] after[i]).addr == addr;
            assert(nodes[i].addr == addr);
        }
        if expected.contains_key(addr) {
            if addr == node.addr {
                assert(after[at].addr == addr);
            } else {
                let i = choose|i: int| 0 <= i < nodes.len() && (#[trigger] nodes[i]).addr == addr;
                assert(after[i].addr == addr);
            }
        }
    }
    assert forall|addr: Seq<char>| #[trigger] by_addr(after).contains_key(addr) implies by_addr(
        after,
    )[addr] == expected[addr] by {
        let i = choose|i: int| 0 <= i < after.len() && (#[trigger] after[i]).addr == addr;
        if i != at {
            assert(nodes[i] == after[i]);
            assert(nodes[i].addr != nodes[at].addr);
        }
    }
    assert(by_addr(after) =~= expected);
}

impl DiscoveryService {
    /// No address is known twice.
    pub closed spec fn wf(&self) -> bool {
        distinct_addrs(self.known_nodes.deep_view())
    }

    /// A service that knows no node. It listens on the cluster's port unless it has
    /// one of its own, and announces at most once in a second.
    pub fn new(config: &ClusterConfig, node_name: String) -> (service: Self)
        ensures
            service.wf(),
            service@ == (DiscoveryView {
                node_name: node_name@,
                ws_port: config@.bind_port,
                discovery_port: match config@.discovery_port {
                    Some(port) => port,
                    None => config@.bind_port,
                },
                bind_addr: config@.bind_host,
                node_token: config@.node_token,
                discovery_interval_secs: if config@.discovery_interval_secs == 0 {
                    1
                } else {
                    config@.discovery_interval_secs
                },
                known_nodes: Map::empty(),
            }),
    {
        let discovery_port = match config.discovery_port {
            Some(port) => port,
            None => config.bind_port,
        };
        DiscoveryService {
            node_name,
            ws_port: config.bind_port,
            discovery_port,
            bind_addr: config.bind_host.clone(),
            node_token: clone_opt_text(&config.node_token),
            discovery_interval_secs: if config.discovery_interval_secs == 0 {
                1
            } else {
                config.discovery_interval_secs
            },
            known_nodes: Vec::new(),
        }
    }

    /// Where to listen for announcements.
    pub fn listen_addr(&self) -> (addr: String)
        ensures
            addr@ == text::host_port_text(
                self@.bind_addr,
                text::decimal(self@.discovery_port as nat),
            ),
    {
        host_port(&self.bind_addr, self.discovery_port)
    }

    /// What to broadcast at every interval.
    pub fn announcement(&self) -> (message: String)
        ensures
            message@ == announcement_text(self@.node_name, self@.ws_port),
    {
        let mut message = DISCOVERY_MAGIC.to_string();
        message.push('|');
        let mut message = joined(&message, &self.node_name);
        message.push('|');
        push_decimal(&mut message, self.ws_port as u64);
        assert(message@ =~= announcement_text(self@.node_name, self@.ws_port));
        message
    }

    /// Where to broadcast to: from a loopback address to the loopback network, from
    /// any other to the local one.
    pub fn broadcast_addr(loopback: bool) -> (addr: NodeAddr)
        ensures
            addr == (if loopback {
                NodeAddr::V4 { ip: 0x7fff_ffff, port: 65535 }
            } else {
                NodeAddr::V4 { ip: 0xffff_ffff, port: 65535 }
            }),
    {
        if loopback {
            NodeAddr::V4 { ip: 0x7fff_ffff, port: 65535 }
        } else {
            NodeAddr::V4 { ip: 0xffff_ffff, port: 65535 }
        }
    }

    /// One turn of the discovery loop at `now`, in nanoseconds since some fixed moment.
    pub fn listen_and_connect_step(&mut self, event: ListenEvent, now: u128) -> (found: Discovered)
        requires
            old(self).wf(),
            old(self)@.discovery_interval_secs * DISCOVERY_TIMEOUT_MULTIPLIER <= u64::MAX,
        ensures
            final(self).wf(),
            (final(self)@, found@) == old(self)@.listen(event@, now),
    {
        match event {
            ListenEvent::Datagram { bytes, sender_ip } => self.handle_datagram(
                bytes,
                &sender_ip,
                now,
            ),
            ListenEvent::Failed => Discovered::Nothing,
            ListenEvent::Tick => {
                let timeout: u128 = self.stale_timeout();
                self.cleanup_stale_nodes(now, timeout);
                Discovered::Nothing
            },
        }
    }

    /// Takes a datagram that came from `sender_ip` at `now`.
    pub fn handle_datagram(&mut self, datagram: Vec<u8>, sender_ip: &str, now: u128) -> (found: Discovered)
        requires
            old(self).wf(),
        ensures
            final(self).wf(),
            (final(self)@, found@) == old(self)@.receive(datagram@, sender_ip@, now),
    {
        match text_from_utf8(datagram) {
            Some(message) => self.handle_discovery_message(&message, sender_ip, now),
            None => Discovered::Nothing,
        }
    }

    /// Takes a message that came from `sender_ip` at `now`, in nanoseconds since some
    /// fixed moment.
    pub fn handle_discovery_message(&mut self, msg: &str, sender_ip: &str, now: u128) -> (found: Discovered)
        requires
            old(self).wf(),
        ensures
            final(self).wf(),
            (final(self)@, found@) == old(self)@.hear(msg@, sender_ip@, now),
    {
        let parts = split(msg, '|');
        let ghost fields = text::fields(msg@, '|');
        assert(parts.len() == fields.len());
        if parts.len() < 3 {
            return Discovered::Nothing;
        }
        assert(fields[0] == parts[0]@ && fields[1] == parts[1]@ && fields[2] == parts[2]@);
        if !same_text(&parts[0], DISCOVERY_MAGIC) || same_text(&parts[1], &self.node_name) {
            return Discovered::Nothing;
        }
        let mut addr = sender_ip.to_string();
        addr.push(':');
        let addr = joined(&addr, &parts[2]);
        let ghost before = self.known_nodes.deep_view();
        proof {
            lemma_by_addr(before);
        }
        match self.position(&addr) {
            Some(i) => {
                let name = self.known_nodes[i].name.clone();
                let node = KnownNode { addr, name, last_seen: now };
                proof {
                    assert(before[i as int].addr == addr@);
                    lemma_by_addr_update(before, i as int, node@);
                }
                self.known_nodes.set(i, node);
                assert(self.known_nodes.deep_view() =~= before.update(i as int, node@));
                Discovered::Known
            },
            None => {
                assert(!by_addr(before).contains_key(addr@)) by {
                    assert forall|i: int| 0 <= i < before.len() implies (#[trigger] before[i]).addr
                        != addr@ by {
                        assert(before[i] == self.known_nodes[i]@);
                    }
                }
                let node = KnownNode { addr: addr.clone(), name: parts[1].clone(), last_seen: now };
                self.known_nodes.push(node);
                assert(self.known_nodes.deep_view() =~= before.push(node@));
                assert(before.push(node@).drop_last() =~= before);
                Discovered::New(addr)
            },
        }
    }

    /// Where a node with this address stands among the known ones.
    fn position(&self, addr: &str) -> (at: Option<usize>)
        ensures
            at matches Some(i) ==> i < self.known_nodes.len() && self.known_nodes[i as int].addr@
                == addr@,
            at is None ==> forall|i: int|
                0 <= i < self.known_nodes.len() ==> (#[trigger] self.known_nodes[i]).addr@ != addr@,
    {
        let mut i: usize = 0;
        while i < self.known_nodes.len()
            invariant
                i <= self.known_nodes.len(),
                forall|j: int| 0 <= j < i ==> (#[trigger] self.known_nodes[j]).addr@ != addr@,
            decreases self.known_nodes.len() - i,
        {
            if same_text(&self.known_nodes[i].addr, addr) {
                return Some(i);
            }
            i += 1;
        }
        None
    }

    /// The nanoseconds of silence after which a node is forgotten.
    pub fn stale_timeout(&self) -> (timeout: u128)
        requires
            self@.discovery_interval_secs * DISCOVERY_TIMEOUT_MULTIPLIER <= u64::MAX,
        ensures
            timeout == self@.timeout(),
    {
        let secs: u64 = self.discovery_interval_secs * DISCOVERY_TIMEOUT_MULTIPLIER;
        secs as u128 * NANOS_PER_SEC
    }

    /// Forgets the nodes that at `now` were last heard more than `timeout` ago, both in
    /// nanoseconds.
    pub fn cleanup_stale_nodes(&mut self, now: u128, timeout: u128)
        requires
            old(self).wf(),
        ensures
            final(self).wf(),
            final(self)@ == old(self)@.cleaned(now, timeout),
    {
        let ghost before = self.known_nodes.deep_view();
        let mut kept: Vec<KnownNode> = Vec::new();
        let mut i: usize = 0;
        while i < self.known_nodes.len()
            invariant
                i <= self.known_nodes.len(),
                before == self.known_nodes.deep_view(),
                distinct_addrs(before),
                distinct_addrs(kept.deep_view()),
                forall|j: int|
                    0 <= j < kept.deep_view().len() ==> stands_fresh(
                        before,
                        i as int,
                        #[trigger] kept.deep_view()[j],
                        now,
                        timeout,
                    ),
                forall|k: int|
                    0 <= k < i && now - (#[trigger] before[k]).last_seen <= timeout
                        ==> kept.deep_view().contains(before[k]),
            decreases self.known_nodes.len() - i,
        {
            let ghost so_far = kept.deep_view();
            let node = &self.known_nodes[i];
            assert(before[i as int] == node@);
            if now.saturating_sub(node.last_seen) <= timeout {
                let copy = KnownNode {
                    addr: node.addr.clone(),
                    name: node.name.clone(),
                    last_seen: node.last_seen,
                };
                kept.push(copy);
                assert(kept.deep_view() =~= so_far.push(before[i as int]));
            }
            proof {
                let after = kept.deep_view();
                assert forall|j: int| 0 <= j < after.len() implies stands_fresh(
                    before,
                    i + 1,
                    #[trigger] after[j],
                    now,
                    timeout,
                ) by {
                    if j < so_far.len() {
                        assert(stands_fresh(before, i as int, so_far[j], now, timeout));
                    }
                }
                assert forall|j: int, k: int| 0 <= j < k < after.len() implies (
                #[trigger] after[j]).addr != (#[trigger] after[k]).addr by {
                    assert(stands_fresh(before, i as int, so_far[j], now, timeout));
                }
                assert forall|k: int|
                    0 <= k < i + 1 && now - (#[trigger] before[k]).last_seen
                        <= timeout implies after.contains(before[k]) by {
                    if k < i {
                        let j = choose|j: int| 0 <= j < so_far.len() && so_far[j] == before[k];
                        assert(after[j] == before[k]);
                    } else {
                        assert(after[after.len() - 1] == before[k]);
                    }
                }
            }
            i += 1;
        }
        proof {
            let after = kept.deep_view();
            lemma_by_addr(before);
            lemma_by_addr(after);
            let expected = self@.cleaned(now, timeout).known_nodes;
            assert forall|addr: Seq<char>| #[trigger] by_addr(after).contains_key(addr) implies
                expected.contains_key(addr) && expected[addr] == by_addr(after)[addr] by {
                let j = choose|j: int| 0 <= j < after.len() && (#[trigger] after[j]).addr == addr;
                assert(stands_fresh(before, before.len() as int, after[j], now, timeout));
            }
            assert forall|addr: Seq<char>| #[trigger] expected.contains_key(addr) implies by_addr(
                after,
            ).contains_key(addr) by {
                let k = choose|k: int| 0 <= k < before.len() && (#[trigger] before[k]).addr == addr;
                assert(after.contains(before[k]));
                let j = choose|j: int| 0 <= j < after.len() && after[j] == before[k];
                assert(after[j].addr == addr);
            }
            assert(by_addr(after) =~= expected);
        }
        self.known_nodes = kept;
    }
}

/// Whether `node` is one of the first `n` of `nodes` and was heard at most `timeout`
/// before `now`.
spec fn stands_fresh(
    nodes: Seq<KnownNodeView>,
    n: int,
    node: KnownNodeView,
    now: u128,
    timeout: u128,
) -> bool {
    &&& now - node.last_seen <= timeout
    &&& exists|k: int| 0 <= k < n && #[trigger] nodes[k] == node
}

/// What a node announces is what others hear: its name and its port. A name that
/// holds the separator is not heard whole.
pub proof fn law_announcement_is_heard(name: Seq<char>, port: u16)
    requires
        !name.contains('|'),
    ensures
        announced(announcement_text(name, port)) == Some((name, text::decimal(port as nat))),
{
    reveal_strlit("ZEROCLAW");
    let magic = DISCOVERY_MAGIC@;
    let digits = text::decimal(port as nat);
    assert(!magic.contains('|'));
    assert forall|i: int| 0 <= i < digits.len() implies digits[i] != '|' by {
        text::decimal_holds_digits(port as nat, i);
    }
    assert(announcement_text(name, port) =~= magic.push('|') + (name.push('|') + digits));
    text::fields_of_joined(magic, name.push('|') + digits, '|');
    text::fields_of_joined(name, digits, '|');
    text::fields_of_plain(magic, '|');
    text::fields_of_plain(name, '|');
    text::fields_of_plain(digits, '|');
}

/// A node that hears the announcement of another for the first time is to connect to
/// it, at the address that the datagram came from and the port that was announced; at
/// every later time it is not.
pub proof fn law_nodes_connect_upon_discovery(
    service: DiscoveryView,
    name: Seq<char>,
    port: u16,
    sender_ip: Seq<char>,
    first: u128,
    second: u128,
)
    requires
        !name.contains('|'),
        name != service.node_name,
        !service.known_nodes.contains_key(
            text::host_port_text(sender_ip, text::decimal(port as nat)),
        ),
    ensures
        ({
            let message = announcement_text(name, port);
            let addr = text::host_port_text(sender_ip, text::decimal(port as nat));
            let (once, found) = service.hear(message, sender_ip, first);
            let (twice, found_again) = once.hear(message, sender_ip, second);
            &&& found == DiscoveredView::New(addr)
            &&& once.known_nodes[addr] == (name, first)
            &&& found_again == DiscoveredView::Known
            &&& twice.known_nodes == once.known_nodes.insert(addr, (name, second))
        }),
{
    law_announcement_is_heard(name, port);
}

/// A node does not discover itself.
pub proof fn law_own_announcement_is_ignored(
    service: DiscoveryView,
    sender_ip: Seq<char>,
    now: u128,
)
    requires
        !service.node_name.contains('|'),
    ensures
        service.hear(announcement_text(service.node_name, service.ws_port), sender_ip, now) == (
            service,
            DiscoveredView::Nothing,
        ),
{
    law_announcement_is_heard(service.node_name, service.ws_port);
}

/// A datagram that encodes an announcement is heard as the announcement.
pub proof fn law_encoded_announcement_is_received(
    service: DiscoveryView,
    message: Seq<char>,
    sender_ip: Seq<char>,
    now: u128,
)
    ensures
        service.receive(vstd::utf8::encode_utf8(message), sender_ip, now) == service.hear(
            message,
            sender_ip,
            now,
        ),
{
    vstd::utf8::encode_utf8_valid_utf8(message);
    vstd::utf8::encode_utf8_decode_utf8(message);
}

/// A node that was forgotten is discovered anew when it announces itself again.
pub proof fn law_forgotten_node_is_discovered_again(
    service: DiscoveryView,
    name: Seq<char>,
    port: u16,
    sender_ip: Seq<char>,
    seen: u128,
    cleaned: u128,
    again: u128,
    timeout: u128,
)
    requires
        !name.contains('|'),
        name != service.node_name,
        cleaned - seen > timeout,
    ensures
        ({
            let message = announcement_text(name, port);
            let addr = text::host_port_text(sender_ip, text::decimal(port as nat));
            let (heard, _) = service.hear(message, sender_ip, seen);
            let (_, found) = heard.cleaned(cleaned, timeout).hear(message, sender_ip, again);
            found == DiscoveredView::New(addr)
        }),
{
    law_announcement_is_heard(name, port);
}

/// Cleaning up forgets exactly the nodes that were silent for longer than the timeout,
/// and doing it twice at the same moment is doing it once.
pub proof fn law_cleanup_forgets_exactly_the_silent(
    service: DiscoveryView,
    addr: Seq<char>,
    now: u128,
    timeout: u128,
)
    ensures
        ({
            let after = service.cleaned(now, timeout);
            &&& after.known_nodes.contains_key(addr) <==> service.known_nodes.contains_key(addr)
                && now - service.known_nodes[addr].1 <= timeout
            &&& after.known_nodes.contains_key(addr) ==> after.known_nodes[addr]
                == service.known_nodes[addr]
            &&& after.cleaned(now, timeout) == after
        }),
{
    let after = service.cleaned(now, timeout);
    assert(after.cleaned(now, timeout).known_nodes =~= after.known_nodes);
}

/// What is seen of a service is what it holds, and of each node what was noted last.
proof fn law_service_is_seen_as_it_is(service: DiscoveryService, i: int)
    requires
        service.wf(),
        0 <= i < service.known_nodes.len(),
    ensures
        service@.node_name == service.node_name@,
        service@.ws_port == service.ws_port,
        service@.discovery_port == service.discovery_port,
        service@.bind_addr == service.bind_addr@,
        service@.node_token == service.node_token.deep_view(),
        service@.discovery_interval_secs == service.discovery_interval_secs,
        service@.known_nodes.contains_key(service.known_nodes[i].addr@),
        service@.known_nodes[service.known_nodes[i].addr@].0 == service.known_nodes[i].name@,
        service@.known_nodes[service.known_nodes[i].addr@].1 == service.known_nodes[i].last_seen,
{
    lemma_by_addr(service.known_nodes.deep_view());
    assert(service.known_nodes.deep_view()[i] == service.known_nodes[i]@);
}

} // verus!
