//! What comes of calls on a table of peers.

use vstd::prelude::*;

use crate::cluster::node::{NodeId, NodeInfo};
use crate::cluster::peers::PeerTable;
use crate::config::ClusterNodeRole;
use crate::laws::message::same_node;

verus! {

/// A node that was filed is found as it was given; what is found of any other node stays
/// what it was.
pub proof fn law_filed_node_is_found(
    table: &mut PeerTable,
    info: NodeInfo,
    other: NodeId,
    found: Option<NodeInfo>,
    before: Option<NodeInfo>,
    after: Option<NodeInfo>,
)
    requires
        other != info.id,
        call_ensures(PeerTable::get, (&*old(table), &other), before),
        call_ensures(PeerTable::insert, (table, info), ()),
        call_ensures(PeerTable::get, (&*final(table), &info.id), found),
        call_ensures(PeerTable::get, (&*final(table), &other), after),
    ensures
        found matches Some(found) && same_node(found, info),
        after is Some <==> before is Some,
        after matches Some(a) ==> before matches Some(b) && same_node(a, b),
{
}

/// A node that was removed is not found; what is found of any other node stays what it
/// was.
pub proof fn law_removed_node_is_not_found(
    table: &mut PeerTable,
    id: NodeId,
    other: NodeId,
    found: Option<NodeInfo>,
    before: Option<NodeInfo>,
    after: Option<NodeInfo>,
)
    requires
        other != id,
        call_ensures(PeerTable::get, (&*old(table), &other), before),
        call_ensures(PeerTable::remove, (table, &id), ()),
        call_ensures(PeerTable::get, (&*final(table), &id), found),
        call_ensures(PeerTable::get, (&*final(table), &other), after),
    ensures
        found is None,
        after is Some <==> before is Some,
        after matches Some(a) ==> before matches Some(b) && same_node(a, b),
{
}

/// An empty table has nobody to find, to list or to count.
pub proof fn law_new_table_is_empty(
    table: PeerTable,
    id: NodeId,
    found: Option<NodeInfo>,
    list: Vec<NodeInfo>,
    n: usize,
)
    requires
        call_ensures(PeerTable::new, (), table),
        call_ensures(PeerTable::get, (&table, &id), found),
        call_ensures(PeerTable::list, (&table,), list),
        call_ensures(PeerTable::len, (&table,), n),
    ensures
        found is None,
        list.len() == 0,
        n == 0,
{
    assert(list.deep_view().len() == list.len());
    assert(table@.dom() =~= Set::empty());
}

/// The list of a table and what is found in it are the same: everybody who is found
/// stands in the list, everybody in the list is found, nobody stands there twice, and
/// the count is that of the list.
pub proof fn law_list_holds_whoever_is_found(
    table: PeerTable,
    id: NodeId,
    found: Option<NodeInfo>,
    list: Vec<NodeInfo>,
    n: usize,
)
    requires
        table.wf(),
        call_ensures(PeerTable::get, (&table, &id), found),
        call_ensures(PeerTable::list, (&table,), list),
        call_ensures(PeerTable::len, (&table,), n),
    ensures
        found is Some <==> exists|i: int| 0 <= i < list.len() && (#[trigger] list[i]).id == id,
        found matches Some(found) ==> exists|i: int|
            0 <= i < list.len() && same_node(#[trigger] list[i], found),
        forall|i: int, j: int|
            0 <= i < j < list.len() ==> (#[trigger] list[i]).id != (#[trigger] list[j]).id,
        n == list.len(),
{
    let seen = list.deep_view();
    assert(seen.len() == list.len());
    assert forall|i: int| 0 <= i < list.len() && (#[trigger] list[i]).id == id implies found
        is Some by {
        assert(seen[i] == list[i]@);
        assert(table@.contains_key(seen[i].id.0));
    }
    if let Some(found) = found {
        let i = choose|i: int| 0 <= i < seen.len() && #[trigger] seen[i] == table@[id.0];
        assert(seen[i] == list[i]@);
        assert(same_node(list[i], found));
        assert(table@.contains_key(seen[i].id.0));
        assert(table@[id.0] == found@);
        assert(list[i].id == id);
    }
    assert forall|i: int, j: int| 0 <= i < j < list.len() implies (#[trigger] list[i]).id != (
    #[trigger] list[j]).id by {
        assert(seen[i].id != seen[j].id);
    }
}

/// Keeping the fresh keeps whoever was heard less than `window` seconds ago, or is to be
/// heard yet, as long as there is a window at all; it keeps them as they are, and nobody
/// else.
pub proof fn law_fresh_nodes_are_kept(
    table: &mut PeerTable,
    id: NodeId,
    now: u64,
    window: u64,
    before: Option<NodeInfo>,
    after: Option<NodeInfo>,
)
    requires
        call_ensures(PeerTable::get, (&*old(table), &id), before),
        call_ensures(PeerTable::keep_fresh, (table, now, window), ()),
        call_ensures(PeerTable::get, (&*final(table), &id), after),
    ensures
        after is Some <==> (before matches Some(node) && window > 0 && now
            < node.last_heartbeat_secs + window),
        after matches Some(a) ==> before matches Some(b) && same_node(a, b),
{
}

/// A coordinator is found exactly if some node that is found by its id coordinates, and
/// it is one of those.
pub proof fn law_coordinator_is_found_if_there_is_one(
    table: PeerTable,
    id: NodeId,
    named: Option<NodeInfo>,
    list: Vec<NodeInfo>,
    found: Option<NodeInfo>,
)
    requires
        table.wf(),
        call_ensures(PeerTable::get, (&table, &id), named),
        call_ensures(PeerTable::list, (&table,), list),
        call_ensures(PeerTable::find_coordinator, (&table,), found),
    ensures
        (named matches Some(node) && node.role == ClusterNodeRole::Coordinator) ==> found is Some,
        found matches Some(node) ==> node.role == ClusterNodeRole::Coordinator && exists|i: int|
            0 <= i < list.len() && same_node(#[trigger] list[i], node),
{
    let seen = list.deep_view();
    if let Some(node) = named {
        assert(table@.contains_key(id.0));
    }
    if let Some(node) = found {
        let i = choose|i: int| 0 <= i < seen.len() && #[trigger] seen[i] == table@[node@.id.0];
        assert(seen[i] == list[i]@);
        assert(same_node(list[i], node));
    }
}

} // verus!
