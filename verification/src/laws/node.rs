//! What comes of calls on ids and nodes.

use std::cmp::Ordering;
use vstd::prelude::*;

use crate::cluster::node::{
    clock_reads, drawn_uuid, refused_uuid, InvalidNodeId, NodeAddr, NodeId, NodeInfo, NodeStatus,
};
use crate::config::ClusterNodeRole;
use crate::outside::is_random_uuid;
use crate::text::{
    displayed_uuid_is_written, hex_char, lower_char, nibble, uuid_hyphenated, uuid_simple,
    writes_uuid, written_uuid_is_unique,
};

verus! {

/// Where the `i`-th of the 32 digits of an id stands in its text.
pub open spec fn digit_place(i: int) -> int {
    if i < 8 {
        i
    } else if i < 12 {
        i + 1
    } else if i < 16 {
        i + 2
    } else if i < 20 {
        i + 3
    } else {
        i + 4
    }
}

/// A new node is what it was given, connecting, without load, and heard of at the moment
/// given.
pub proof fn law_new_node_is_as_given(
    id: NodeId,
    name: String,
    addr: NodeAddr,
    role: ClusterNodeRole,
    capabilities: Vec<String>,
    now: u64,
    info: NodeInfo,
)
    requires
        call_ensures(NodeInfo::new_at, (id, name, addr, role, capabilities, now), info),
    ensures
        info.id == id,
        info.name@ == name@,
        info.addr == addr,
        info.role == role,
        info.capabilities.deep_view() == capabilities.deep_view(),
        info.status == NodeStatus::Connecting,
        info.last_heartbeat_secs == now,
        info.load_score == 0,
{
}

/// The same of a node heard of just now: the moment is a reading of the clock.
pub proof fn law_node_met_now_is_as_given(
    id: NodeId,
    name: String,
    addr: NodeAddr,
    role: ClusterNodeRole,
    capabilities: Vec<String>,
    info: NodeInfo,
)
    requires
        call_ensures(NodeInfo::new, (id, name, addr, role, capabilities), info),
    ensures
        info.id == id,
        info.name@ == name@,
        info.addr == addr,
        info.role == role,
        info.capabilities.deep_view() == capabilities.deep_view(),
        info.status == NodeStatus::Connecting,
        clock_reads(info.last_heartbeat_secs),
        info.load_score == 0,
{
}

/// A heartbeat changes the status and its own time, and nothing else.
pub proof fn law_heartbeat_changes_status_and_time(info: &mut NodeInfo, now: u64)
    requires
        call_ensures(NodeInfo::update_heartbeat_at, (info, now), ()),
    ensures
        final(info).status == NodeStatus::Healthy,
        final(info).last_heartbeat_secs == now,
        final(info).id == old(info).id,
        final(info).name@ == old(info).name@,
        final(info).addr == old(info).addr,
        final(info).role == old(info).role,
        final(info).capabilities.deep_view() == old(info).capabilities.deep_view(),
        final(info).load_score == old(info).load_score,
{
}

/// The same of a heartbeat just now.
pub proof fn law_heartbeat_now_changes_status_and_time(info: &mut NodeInfo)
    requires
        call_ensures(NodeInfo::update_heartbeat, (info,), ()),
    ensures
        final(info).status == NodeStatus::Healthy,
        clock_reads(final(info).last_heartbeat_secs),
        final(info).id == old(info).id,
        final(info).name@ == old(info).name@,
        final(info).addr == old(info).addr,
        final(info).role == old(info).role,
        final(info).capabilities.deep_view() == old(info).capabilities.deep_view(),
        final(info).load_score == old(info).load_score,
{
}

/// A node is healthy by its status alone.
pub proof fn law_health_is_the_status(info: NodeInfo, healthy: bool)
    requires
        call_ensures(NodeInfo::is_healthy, (&info,), healthy),
    ensures
        healthy <==> info.status == NodeStatus::Healthy,
{
}

/// A node has a capability exactly if one of those it lists is that, whole.
pub proof fn law_capability_is_one_of_the_list(info: NodeInfo, cap: &str, has: bool)
    requires
        call_ensures(NodeInfo::has_capability, (&info, cap), has),
    ensures
        has <==> exists|i: int|
            0 <= i < info.capabilities.len() && (#[trigger] info.capabilities[i])@ == cap@,
{
    let listed = info.capabilities.deep_view();
    if has {
        let i = choose|i: int| 0 <= i < listed.len() && listed[i] == cap@;
        assert(info.capabilities[i]@ == cap@);
    }
    assert forall|i: int|
        0 <= i < info.capabilities.len() && (#[trigger] info.capabilities[i])@
            == cap@ implies has by {
        assert(listed[i] == cap@);
    }
}

/// A copy of a node is the same in everything.
pub proof fn law_clone_of_a_node_is_the_same(info: NodeInfo, copy: NodeInfo)
    requires
        call_ensures(NodeInfo::clone, (&info,), copy),
    ensures
        copy.id == info.id,
        copy.name@ == info.name@,
        copy.addr == info.addr,
        copy.role == info.role,
        copy.capabilities.deep_view() == info.capabilities.deep_view(),
        copy.status == info.status,
        copy.last_heartbeat_secs == info.last_heartbeat_secs,
        copy.load_score == info.load_score,
{
}

/// Nodes compare as the numbers of their ids do, and are equal by them alone.
pub proof fn law_nodes_compare_as_their_ids(
    a: NodeInfo,
    b: NodeInfo,
    order: Ordering,
    partial: Option<Ordering>,
    same: bool,
)
    requires
        call_ensures(NodeInfo::cmp, (&a, &b), order),
        call_ensures(NodeInfo::partial_cmp, (&a, &b), partial),
        call_ensures(NodeInfo::eq, (&a, &b), same),
    ensures
        order == Ordering::Less <==> a.id.0 < b.id.0,
        order == Ordering::Equal <==> a.id.0 == b.id.0,
        order == Ordering::Greater <==> a.id.0 > b.id.0,
        partial == Some(order),
        same <==> a.id.0 == b.id.0,
{
}

/// A node without an address says `0.0.0.0:0`, and a new connection is connecting.
pub proof fn law_defaults_of_a_node(addr: NodeAddr, status: NodeStatus)
    requires
        call_ensures(NodeAddr::unspecified, (), addr),
        call_ensures(NodeStatus::default, (), status),
    ensures
        addr == (NodeAddr::V4 { ip: 0, port: 0 }),
        status == NodeStatus::Connecting,
{
}

/// An id keeps the bits it is made of.
pub proof fn law_id_keeps_its_bits(v: u128, id: NodeId)
    requires
        call_ensures(NodeId::from_u128, (v,), id),
    ensures
        id.0 == v,
{
}

/// An id is written as its 32 hexadecimal digits, in small letters and in order, with
/// hyphens after the eighth, twelfth, sixteenth and twentieth.
pub proof fn law_id_is_written_digit_by_digit(id: NodeId, text: String)
    requires
        call_ensures(NodeId::to_string, (&id,), text),
    ensures
        text@.len() == 36,
        text@[8] == '-' && text@[13] == '-' && text@[18] == '-' && text@[23] == '-',
        forall|i: int|
            #![trigger digit_place(i)]
            0 <= i < 32 ==> text@[digit_place(i)] == "0123456789abcdef"@[((id.0 >> ((124 - 4
                * i) as u128)) & 0xf) as int],
{
    reveal_strlit("0123456789abcdef");
    let digits = uuid_simple(id.0);
    assert forall|i: int|
        #![trigger digit_place(i)]
        0 <= i < 32 implies text@[digit_place(i)] == "0123456789abcdef"@[((id.0 >> ((124 - 4
        * i) as u128)) & 0xf) as int] by {
        assert(text@[digit_place(i)] == digits[i]);
        let x = id.0 >> ((124 - 4 * i) as u128);
        let d = x & 0xf;
        assert(x & 0xf < 16) by (bit_vector);
        assert(digits[i] == hex_char(nibble(id.0, i)));
        assert(nibble(id.0, i) == d);
    }
}

/// What an id is written as is read as that id, by either way of reading it.
pub proof fn law_written_id_is_read_back(
    id: NodeId,
    text: String,
    s: &str,
    parsed: Result<NodeId, InvalidNodeId>,
    found: Option<NodeId>,
)
    requires
        call_ensures(NodeId::to_string, (&id,), text),
        s@ == text@,
        call_ensures(NodeId::parse, (s,), parsed),
        call_ensures(NodeId::from_string, (s,), found),
    ensures
        parsed == Ok::<NodeId, InvalidNodeId>(id),
        found == Some(id),
{
    displayed_uuid_is_written(id.0);
    if let Ok(other) = parsed {
        written_uuid_is_unique(s@, other.0, id.0);
    }
    if let Some(other) = found {
        written_uuid_is_unique(s@, other.0, id.0);
    }
}

/// Putting the written form of an id in braces, or behind `urn:uuid:`, or leaving out its
/// hyphens, makes no difference to how it is read.
pub proof fn law_every_written_form_is_read(
    id: NodeId,
    text: String,
    s: &str,
    parsed: Result<NodeId, InvalidNodeId>,
)
    requires
        call_ensures(NodeId::to_string, (&id,), text),
        s@ == seq!['{'] + text@ + seq!['}'] || s@ == "urn:uuid:"@ + text@ || s@ == text@.subrange(
            0,
            8,
        ) + text@.subrange(9, 13) + text@.subrange(14, 18) + text@.subrange(19, 23)
            + text@.subrange(24, 36),
        call_ensures(NodeId::parse, (s,), parsed),
    ensures
        parsed == Ok::<NodeId, InvalidNodeId>(id),
{
    reveal_strlit("urn:uuid:");
    let digits = uuid_simple(id.0);
    assert forall|i: int| 0 <= i < 32 implies lower_char(#[trigger] digits[i]) == digits[i] by {
        let x = id.0 >> ((124 - 4 * i) as u128);
        assert(x & 0xf < 16) by (bit_vector);
        assert(digits[i] == hex_char(nibble(id.0, i)));
    }
    assert(text@ == uuid_hyphenated(id.0));
    let bare = text@.subrange(0, 8) + text@.subrange(9, 13) + text@.subrange(14, 18)
        + text@.subrange(19, 23) + text@.subrange(24, 36);
    assert(bare =~= digits);
    assert(s@.map_values(|c: char| lower_char(c)) =~= s@);
    assert(writes_uuid(s@, id.0));
    if let Ok(other) = parsed {
        written_uuid_is_unique(s@, other.0, id.0);
    }
}

/// A text that is refused is what no id is written as, and one that differs from an
/// accepted one only in the case of its letters is read alike.
pub proof fn law_reading_ids_ignores_case(
    s: &str,
    t: &str,
    first: Result<NodeId, InvalidNodeId>,
    second: Result<NodeId, InvalidNodeId>,
    found: Option<NodeId>,
)
    requires
        call_ensures(NodeId::parse, (s,), first),
        call_ensures(NodeId::parse, (t,), second),
        call_ensures(NodeId::from_string, (s,), found),
        s@.map_values(|c: char| lower_char(c)) == t@.map_values(|c: char| lower_char(c)),
    ensures
        first is Ok <==> second is Ok,
        first is Ok ==> first == second,
        found is Some <==> first is Ok,
        found matches Some(id) ==> first == Ok::<NodeId, InvalidNodeId>(id),
        first is Err ==> forall|id: u128| uuid_hyphenated(id) != s@,
        first matches Err(error) ==> refused_uuid(s, error.reason),
{
    if let Ok(a) = first {
        assert(writes_uuid(t@, a.0));
        if let Ok(b) = second {
            written_uuid_is_unique(t@, a.0, b.0);
        }
        if let Some(c) = found {
            written_uuid_is_unique(s@, a.0, c.0);
        }
    }
    if let Ok(b) = second {
        assert(writes_uuid(s@, b.0));
    }
    if first is Err {
        assert forall|id: u128| uuid_hyphenated(id) != s@ by {
            displayed_uuid_is_written(id);
        }
    }
}

/// A new id is drawn, and shows it in its text: the third group starts with `4`, the
/// fourth with `8`, `9`, `a` or `b`.
pub proof fn law_new_id_is_drawn(id: NodeId, other: NodeId, text: String)
    requires
        call_ensures(NodeId::new, (), id),
        call_ensures(NodeId::default, (), other),
        call_ensures(NodeId::to_string, (&id,), text),
    ensures
        drawn_uuid(id.0),
        drawn_uuid(other.0),
        text@[14] == '4',
        text@[19] == '8' || text@[19] == '9' || text@[19] == 'a' || text@[19] == 'b',
{
    let v = id.0;
    assert(is_random_uuid(v));
    assert(text@[14] == uuid_simple(v)[12]);
    assert(text@[19] == uuid_simple(v)[16]);
    assert(nibble(v, 12) == (v >> 76u128) & 0xf);
    assert(nibble(v, 16) == (v >> 60u128) & 0xf);
    let n = (v >> 60u128) & 0xf;
    assert(8 <= n <= 11) by (bit_vector)
        requires
            n == (v >> 60u128) & 0xf,
            (v >> 62u128) & 0x3 == 2,
    ;
}

} // verus!
