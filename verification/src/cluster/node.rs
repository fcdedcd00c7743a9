//! Node identities and what nodes know of each other.

use std::cmp::Ordering;
use std::time::{Duration, SystemTime};
use vstd::prelude::*;
use vstd::std_specs::cmp::{PartialEqSpec, PartialOrdSpec};

use crate::config::{clone_texts, ClusterNodeRole};
use crate::outside::{is_random_uuid, random_uuid, since_epoch, uuid_from_text, uuid_to_text};
use crate::text::{
    displayed_uuid_is_written, same_text, uuid_hyphenated, writes_uuid, written_uuid_is_unique,
};

verus! {

/// The nanoseconds of a second.
pub const NANOS_PER_SEC: u128 = 1_000_000_000;

/// A node's identity: the 128 bits of a UUID, as the number its bytes spell with
/// the most significant first. Ids are ordered as these numbers, which is the
/// order of the bytes.
#[derive(Debug, Clone, Copy, PartialEq, Eq, Hash, PartialOrd, Ord, Structural)]
pub struct NodeId(pub u128);

/// A text that is no node id, with the reason that [`uuid`] gives.
#[derive(Debug, PartialEq, Eq)]
pub struct InvalidNodeId {
    pub reason: uuid::Error,
}

/// Whether `v` came of a draw of a random UUID.
pub closed spec fn drawn_uuid(v: u128) -> bool {
    call_ensures(random_uuid, (), v)
}

/// Draws a random UUID.
pub(crate) fn draw_uuid() -> (v: u128)
    ensures
        is_random_uuid(v),
        drawn_uuid(v),
{
    random_uuid()
}

/// Whether `reason` is why `s` is not read as a UUID.
pub closed spec fn refused_uuid(s: &str, reason: uuid::Error) -> bool {
    call_ensures(uuid_from_text, (s,), Err(reason))
}

impl NodeId {
    /// A random id.
    pub fn new() -> (id: Self)
        ensures
            is_random_uuid(id.0),
            drawn_uuid(id.0),
    {
        NodeId(draw_uuid())
    }

    /// The id that `s` writes, as [`writes_uuid`] says, and `None` where it writes
    /// none.
    pub fn from_string(s: &str) -> (id: Option<Self>)
        ensures
            id matches Some(id) ==> writes_uuid(s@, id.0),
            id is None ==> forall|v: u128| !writes_uuid(s@, v),
    {
        match Self::parse(s) {
            Ok(id) => Some(id),
            Err(_) => None,
        }
    }

    /// The id with these bits.
    pub fn from_u128(v: u128) -> (id: Self)
        ensures
            id == NodeId(v),
    {
        NodeId(v)
    }

    /// The id that `s` writes, or an error where it writes none.
    pub fn parse(s: &str) -> (id: Result<Self, InvalidNodeId>)
        ensures
            id matches Ok(id) ==> writes_uuid(s@, id.0),
            id matches Err(error) ==> refused_uuid(s, error.reason) && forall|v: u128|
                !writes_uuid(s@, v),
    {
        match uuid_from_text(s) {
            Ok(v) => Ok(NodeId(v)),
            Err(reason) => Err(InvalidNodeId { reason }),
        }
    }

    /// The id in its hyphenated form, which writes it.
    pub fn to_string(&self) -> (text: String)
        ensures
            text@ == uuid_hyphenated(self.0),
            writes_uuid(text@, self.0),
    {
        proof {
            displayed_uuid_is_written(self.0);
        }
        uuid_to_text(self.0)
    }
}

impl Default for NodeId {
    fn default() -> (id: Self)
        ensures
            is_random_uuid(id.0),
            drawn_uuid(id.0),
    {
        Self::new()
    }
}

impl std::str::FromStr for NodeId {
    type Err = InvalidNodeId;

    fn from_str(s: &str) -> (id: Result<Self, InvalidNodeId>)
        ensures
            id matches Ok(id) ==> writes_uuid(s@, id.0),
            id matches Err(error) ==> refused_uuid(s, error.reason) && forall|v: u128|
                !writes_uuid(s@, v),
    {
        Self::parse(s)
    }
}

/// The address of a socket.
#[allow(inconsistent_fields)]
#[derive(Debug, Clone, Copy, PartialEq, Eq, Hash, Structural)]
pub enum NodeAddr {
    /// An IPv4 address, its first octet the most significant, and a port.
    V4 { ip: u32, port: u16 },
    /// An IPv6 address, its first segment the most significant, and a port.
    V6 { ip: u128, port: u16, flowinfo: u32, scope_id: u32 },
}

impl NodeAddr {
    pub open spec fn unspecified_spec() -> NodeAddr {
        NodeAddr::V4 { ip: 0, port: 0 }
    }

    /// `0.0.0.0:0`, for a node that does not say where it listens.
    pub fn unspecified() -> (addr: NodeAddr)
        ensures
            addr == NodeAddr::unspecified_spec(),
    {
        NodeAddr::V4 { ip: 0, port: 0 }
    }
}

/// How far a connection to a node has come.
#[derive(Debug, Clone, Copy, PartialEq, Eq, Hash, Structural)]
pub enum NodeStatus {
    Connecting,
    HandshakeSent,
    HandshakeReceived,
    Healthy,
    Unhealthy,
    Disconnected,
}

impl Default for NodeStatus {
    fn default() -> (status: Self)
        ensures
            status == NodeStatus::Connecting,
    {
        NodeStatus::Connecting
    }
}

/// What is known of a node.
#[derive(Debug)]
pub struct NodeInfo {
    pub id: NodeId,
    pub name: String,
    pub addr: NodeAddr,
    pub role: ClusterNodeRole,
    pub capabilities: Vec<String>,
    pub status: NodeStatus,
    /// Unix epoch seconds of last heartbeat
    pub last_heartbeat_secs: u64,
    pub load_score: u32,
}

/// A [`NodeInfo`] with its text as characters.
pub struct NodeInfoView {
    pub id: NodeId,
    pub name: Seq<char>,
    pub addr: NodeAddr,
    pub role: ClusterNodeRole,
    pub capabilities: Seq<Seq<char>>,
    pub status: NodeStatus,
    pub last_heartbeat_secs: u64,
    pub load_score: u32,
}

impl View for NodeInfo {
    type V = NodeInfoView;

    open spec fn view(&self) -> NodeInfoView {
        NodeInfoView {
            id: self.id,
            name: self.name@,
            addr: self.addr,
            role: self.role,
            capabilities: self.capabilities.deep_view(),
            status: self.status,
            last_heartbeat_secs: self.last_heartbeat_secs,
            load_score: self.load_score,
        }
    }
}

impl DeepView for NodeInfo {
    type V = NodeInfoView;

    open spec fn deep_view(&self) -> NodeInfoView {
        self@
    }
}

impl NodeInfoView {
    /// A node that was heard of at `now`: connecting, without load.
    pub open spec fn fresh(
        id: NodeId,
        name: Seq<char>,
        addr: NodeAddr,
        role: ClusterNodeRole,
        capabilities: Seq<Seq<char>>,
        now: u64,
    ) -> NodeInfoView {
        NodeInfoView {
            id,
            name,
            addr,
            role,
            capabilities,
            status: NodeStatus::Connecting,
            last_heartbeat_secs: now,
            load_score: 0,
        }
    }

    /// The node as it introduced itself, heard of at `now`.
    pub open spec fn reintroduced(self, now: u64) -> NodeInfoView {
        NodeInfoView::fresh(self.id, self.name, self.addr, self.role, self.capabilities, now)
    }

    /// The node after a heartbeat at `now`.
    pub open spec fn beating(self, now: u64) -> NodeInfoView {
        NodeInfoView { status: NodeStatus::Healthy, last_heartbeat_secs: now, ..self }
    }

    /// Whether less than `window` seconds have passed at `now` since the node's
    /// last heartbeat. One that lies ahead of `now` has just passed.
    pub open spec fn is_fresh(self, now: u64, window: int) -> bool {
        if self.last_heartbeat_secs <= now {
            now - self.last_heartbeat_secs < window
        } else {
            0 < window
        }
    }
}

/// The seconds since the Unix epoch, and 0 where the clock stands before it.
pub(crate) fn unix_now() -> (secs: u64)
    ensures
        clock_reads(secs),
{
    match since_epoch(SystemTime::now()) {
        Some(elapsed) => elapsed.as_secs(),
        None => 0,
    }
}

/// Whether the clock can read `secs`: the whole seconds since the Unix epoch of a time
/// that [`SystemTime::now`] can return, and 0 for a time before the epoch.
pub closed spec fn clock_reads(secs: u64) -> bool {
    exists|time: SystemTime, elapsed: Option<Duration>|
        {
            &&& call_ensures(SystemTime::now, (), time)
            &&& #[trigger] call_ensures(since_epoch, (time,), elapsed)
            &&& match elapsed {
                Some(elapsed) => call_ensures(Duration::as_secs, (&elapsed,), secs),
                None => secs == 0,
            }
        }
}

impl NodeInfo {
    /// A node heard of just now.
    pub fn new(
        id: NodeId,
        name: String,
        addr: NodeAddr,
        role: ClusterNodeRole,
        capabilities: Vec<String>,
    ) -> (info: Self)
        ensures
            exists|now: u64|
                clock_reads(now) && info@ == #[trigger] NodeInfoView::fresh(
                    id,
                    name@,
                    addr,
                    role,
                    capabilities.deep_view(),
                    now,
                ),
    {
        Self::new_at(id, name, addr, role, capabilities, unix_now())
    }

    /// A node heard of at `now`, in seconds since the Unix epoch.
    pub fn new_at(
        id: NodeId,
        name: String,
        addr: NodeAddr,
        role: ClusterNodeRole,
        capabilities: Vec<String>,
        now: u64,
    ) -> (info: Self)
        ensures
            info@ == NodeInfoView::fresh(id, name@, addr, role, capabilities.deep_view(), now),
    {
        NodeInfo {
            id,
            name,
            addr,
            role,
            capabilities,
            status: NodeStatus::Connecting,
            last_heartbeat_secs: now,
            load_score: 0,
        }
    }

    pub fn is_healthy(&self) -> (healthy: bool)
        ensures
            healthy == (self.status == NodeStatus::Healthy),
    {
        matches!(self.status, NodeStatus::Healthy)
    }

    /// Notes a heartbeat just now: the node is healthy.
    pub fn update_heartbeat(&mut self)
        ensures
            exists|now: u64| clock_reads(now) && final(self)@ == #[trigger] old(self)@.beating(now),
    {
        self.update_heartbeat_at(unix_now());
    }

    /// Notes a heartbeat at `now`, in seconds since the Unix epoch.
    pub fn update_heartbeat_at(&mut self, now: u64)
        ensures
            final(self)@ == old(self)@.beating(now),
    {
        self.last_heartbeat_secs = now;
        self.status = NodeStatus::Healthy;
    }

    pub fn has_capability(&self, cap: &str) -> (has: bool)
        ensures
            has == self@.capabilities.contains(cap@),
    {
        let mut i: usize = 0;
        while i < self.capabilities.len()
            invariant
                i <= self.capabilities.len(),
                forall|j: int| 0 <= j < i ==> self@.capabilities[j] != cap@,
            decreases self.capabilities.len() - i,
        {
            if same_text(&self.capabilities[i], cap) {
                assert(self@.capabilities[i as int] == cap@);
                return true;
            }
            i += 1;
        }
        false
    }

    /// Nodes are ordered by their ids.
    pub fn cmp(&self, other: &Self) -> (order: Ordering)
        ensures
            order == id_order(self.id, other.id),
    {
        if self.id.0 < other.id.0 {
            Ordering::Less
        } else if self.id.0 == other.id.0 {
            Ordering::Equal
        } else {
            Ordering::Greater
        }
    }
}

/// The order of two ids.
pub open spec fn id_order(a: NodeId, b: NodeId) -> Ordering {
    if a.0 < b.0 {
        Ordering::Less
    } else if a.0 == b.0 {
        Ordering::Equal
    } else {
        Ordering::Greater
    }
}

impl Clone for NodeInfo {
    fn clone(&self) -> (copy: Self)
        ensures
            copy@ == self@,
    {
        NodeInfo {
            id: self.id,
            name: self.name.clone(),
            addr: self.addr,
            role: self.role,
            capabilities: clone_texts(&self.capabilities),
            status: self.status,
            last_heartbeat_secs: self.last_heartbeat_secs,
            load_score: self.load_score,
        }
    }
}

impl PartialEq for NodeInfo {
    /// Two accounts of one node are equal, whatever else they say.
    fn eq(&self, other: &Self) -> (same: bool) {
        self.id == other.id
    }
}

impl vstd::std_specs::cmp::PartialEqSpecImpl for NodeInfo {
    open spec fn obeys_eq_spec() -> bool {
        true
    }

    open spec fn eq_spec(&self, other: &Self) -> bool {
        self.id == other.id
    }
}

impl Eq for NodeInfo {

}

impl PartialOrd for NodeInfo {
    fn partial_cmp(&self, other: &Self) -> (order: Option<Ordering>) {
        Some(self.cmp(other))
    }
}

impl vstd::std_specs::cmp::PartialOrdSpecImpl for NodeInfo {
    open spec fn obeys_partial_cmp_spec() -> bool {
        true
    }

    open spec fn partial_cmp_spec(&self, other: &Self) -> Option<Ordering> {
        Some(id_order(self.id, other.id))
    }
}

/// The text that an id is written as is read as that id and no other.
pub proof fn law_id_text_round_trip(id: NodeId, read: NodeId)
    ensures
        writes_uuid(uuid_hyphenated(id.0), read.0) <==> read == id,
{
    displayed_uuid_is_written(id.0);
    if writes_uuid(uuid_hyphenated(id.0), read.0) {
        written_uuid_is_unique(uuid_hyphenated(id.0), read.0, id.0);
    }
}

/// Different ids are written differently, and no text is read as two of them.
pub proof fn law_ids_are_told_apart(text: Seq<char>, a: NodeId, b: NodeId)
    requires
        a != b,
    ensures
        uuid_hyphenated(a.0) != uuid_hyphenated(b.0),
        !(writes_uuid(text, a.0) && writes_uuid(text, b.0)),
{
    if uuid_hyphenated(a.0) == uuid_hyphenated(b.0) {
        displayed_uuid_is_written(a.0);
        displayed_uuid_is_written(b.0);
        written_uuid_is_unique(uuid_hyphenated(a.0), a.0, b.0);
    }
    if writes_uuid(text, a.0) && writes_uuid(text, b.0) {
        written_uuid_is_unique(text, a.0, b.0);
    }
}

/// The order of nodes is total, is the order of their ids, and calls equal exactly the
/// nodes that `==` does.
pub proof fn law_nodes_are_ordered_by_id(a: NodeInfo, b: NodeInfo, c: NodeInfo)
    ensures
        id_order(a.id, b.id) == Ordering::Equal <==> a.eq_spec(&b),
        id_order(a.id, b.id) == Ordering::Less <==> id_order(b.id, a.id) == Ordering::Greater,
        id_order(a.id, b.id) == Ordering::Less && id_order(b.id, c.id) == Ordering::Less
            ==> id_order(a.id, c.id) == Ordering::Less,
        id_order(a.id, b.id) == Ordering::Less <==> a.id.0 < b.id.0,
        a.partial_cmp_spec(&b) == Some(id_order(a.id, b.id)),
{
}

/// A node that has just been heard is healthy and counts as heard within any window.
pub proof fn law_heartbeat_makes_healthy(node: NodeInfoView, now: u64, window: int)
    requires
        window > 0,
    ensures
        node.beating(now).status == NodeStatus::Healthy,
        node.beating(now).is_fresh(now, window),
        node.beating(now).id == node.id,
{
}

/// The clock is what is asked for the time: a reading is the whole seconds that passed
/// from the Unix epoch to a time that the system gave, and 0 where it gave an earlier one.
pub(crate) proof fn law_time_is_read_off_the_clock(secs: u64)
    requires
        call_ensures(unix_now, (), secs) || clock_reads(secs),
    ensures
        exists|time: SystemTime, elapsed: Option<Duration>| {
            &&& call_ensures(SystemTime::now, (), time)
            &&& #[trigger] call_ensures(since_epoch, (time,), elapsed)
            &&& elapsed matches Some(elapsed) ==> call_ensures(
                Duration::as_secs,
                (&elapsed,),
                secs,
            )
            &&& elapsed is None ==> secs == 0
        },
{
}

/// Ids are drawn: a new one is what a draw of a random UUID gave.
pub(crate) proof fn law_id_comes_of_a_draw(v: u128, id: NodeId)
    requires
        call_ensures(draw_uuid, (), v),
        call_ensures(NodeId::new, (), id),
    ensures
        call_ensures(random_uuid, (), v),
        call_ensures(random_uuid, (), id.0),
{
}

/// A text is refused for the reason that its reading as a UUID gave.
pub(crate) proof fn law_reason_comes_of_the_reading(
    s: &str,
    parsed: Result<NodeId, InvalidNodeId>,
)
    requires
        call_ensures(NodeId::parse, (s,), parsed),
    ensures
        parsed matches Err(error) ==> call_ensures(uuid_from_text, (s,), Err(error.reason)),
{
}

} // verus!
