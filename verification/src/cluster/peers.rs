//! The nodes that a node is connected to, by id.

use std::collections::HashMap;
use vstd::prelude::*;

use crate::cluster::node::{NodeId, NodeInfo, NodeInfoView};
use crate::config::ClusterNodeRole;

verus! {

/// What is known of each peer, filed under its id.
pub struct PeerTable {
    map: HashMap<u128, NodeInfo>,
}

impl View for PeerTable {
    type V = Map<u128, NodeInfoView>;

    closed spec fn view(&self) -> Map<u128, NodeInfoView> {
        self.map@.map_values(|info: NodeInfo| info@)
    }
}

/// Whether every node of `peers` is filed under its own id.
pub open spec fn filed_by_id(peers: Map<u128, NodeInfoView>) -> bool {
    forall|k: u128| #[trigger] peers.contains_key(k) ==> peers[k].id == NodeId(k)
}

/// Whether `list` holds every node of `peers` once and nothing else, in some
/// order.
pub open spec fn lists(list: Seq<NodeInfoView>, peers: Map<u128, NodeInfoView>) -> bool {
    &&& list.len() == peers.len()
    &&& forall|i: int|
        0 <= i < list.len() ==> peers.contains_key(#[trigger] list[i].id.0)
            && peers[list[i].id.0] == list[i]
    &&& forall|k: u128| #[trigger]
        peers.contains_key(k) ==> exists|i: int| 0 <= i < list.len() && #[trigger] list[i] == peers[k]
    &&& forall|i: int, j: int|
        0 <= i < j < list.len() ==> (#[trigger] list[i]).id != (#[trigger] list[j]).id
}

/// The nodes of `peers` heard of less than `window` seconds before `now`.
pub open spec fn fresh_peers(peers: Map<u128, NodeInfoView>, now: u64, window: int) -> Map<
    u128,
    NodeInfoView,
> {
    Map::new(
        |k: u128| peers.contains_key(k) && peers[k].is_fresh(now, window),
        |k: u128| peers[k],
    )
}

/// Whether some node of `peers` is a coordinator.
pub open spec fn has_coordinator(peers: Map<u128, NodeInfoView>) -> bool {
    exists|k: u128| #[trigger]
        peers.contains_key(k) && peers[k].role == ClusterNodeRole::Coordinator
}

impl PeerTable {
    pub open spec fn wf(&self) -> bool {
        filed_by_id(self@)
    }

    pub fn new() -> (peers: Self)
        ensures
            peers.wf(),
            peers@ == Map::<u128, NodeInfoView>::empty(),
    {
        let peers = PeerTable { map: HashMap::new() };
        assert(peers@ =~= Map::<u128, NodeInfoView>::empty());
        peers
    }

    pub fn len(&self) -> (n: usize)
        ensures
            n == self@.len(),
    {
        assert(self@.dom() =~= self.map@.dom());
        self.map.len()
    }

    /// Files `info` under its id, in place of what stood there.
    pub fn insert(&mut self, info: NodeInfo)
        requires
            old(self).wf(),
        ensures
            final(self).wf(),
            final(self)@ == old(self)@.insert(info.id.0, info@),
    {
        let ghost before = self@;
        let key: u128 = info.id.0;
        self.map.insert(key, info);
        assert(self@ =~= before.insert(key, info@));
    }

    pub fn remove(&mut self, id: &NodeId)
        requires
            old(self).wf(),
        ensures
            final(self).wf(),
            final(self)@ == old(self)@.remove(id.0),
    {
        let ghost before = self@;
        self.map.remove(&id.0);
        assert(self@ =~= before.remove(id.0));
    }

    pub fn get(&self, id: &NodeId) -> (info: Option<NodeInfo>)
        ensures
            info is Some <==> self@.contains_key(id.0),
            info matches Some(info) ==> info@ == self@[id.0],
    {
        match self.map.get(&id.0) {
            Some(info) => Some(info.clone()),
            None => None,
        }
    }

    /// Every peer, in no particular order.
    pub fn list(&self) -> (list: Vec<NodeInfo>)
        requires
            self.wf(),
        ensures
            lists(list.deep_view(), self@),
    {
        let mut list: Vec<NodeInfo> = Vec::new();
        let entries = self.map.iter();
        let ghost pairs = vstd::std_specs::iter::IteratorSpec::remaining(&entries);
        for entry in it: entries
            invariant
                it.seq() == pairs,
                list.len() == it.index(),
                forall|i: int| 0 <= i < it.index() ==> (#[trigger] list[i])@ == pairs[i].1@,
        {
            list.push(entry.1.clone());
        }
        proof {
            let seen = list.deep_view();
            assert(self@.dom() =~= self.map@.dom());
            assert forall|i: int| 0 <= i < seen.len() implies #[trigger] seen[i].id.0 == *pairs[i].0
                && seen[i] == self@[*pairs[i].0] && self@.contains_key(*pairs[i].0) by {
                assert(self.map@.contains_key(*pairs[i].0));
            }
            assert forall|k: u128| #[trigger] self@.contains_key(k) implies exists|i: int|
                0 <= i < seen.len() && #[trigger] seen[i] == self@[k] by {
                assert(pairs.contains((&k, &self.map@[k])));
                let i = choose|i: int| 0 <= i < pairs.len() && pairs[i] == (&k, &self.map@[k]);
                assert(seen[i] == self@[k]);
            }
            assert forall|i: int, j: int| 0 <= i < j < seen.len() implies (#[trigger] seen[i]).id != (
            #[trigger] seen[j]).id by {
                if seen[i].id == seen[j].id {
                    assert(seen[i].id.0 == *pairs[i].0 && seen[j].id.0 == *pairs[j].0);
                    assert(self.map@[*pairs[i].0] == *pairs[i].1);
                    assert(self.map@[*pairs[j].0] == *pairs[j].1);
                    assert(pairs[i] == pairs[j]);
                }
            }
        }
        list
    }

    /// Some peer that is a coordinator, if any is.
    pub fn find_coordinator(&self) -> (found: Option<NodeInfo>)
        requires
            self.wf(),
        ensures
            found is Some <==> has_coordinator(self@),
            found matches Some(info) ==> self@.contains_key(info@.id.0) && self@[info@.id.0] == info@
                && info@.role == ClusterNodeRole::Coordinator,
    {
        let list = self.list();
        let ghost seen = list.deep_view();
        let mut i: usize = 0;
        while i < list.len()
            invariant
                i <= list.len(),
                seen == list.deep_view(),
                lists(seen, self@),
                forall|j: int| 0 <= j < i ==> (#[trigger] seen[j]).role != ClusterNodeRole::Coordinator,
            decreases list.len() - i,
        {
            if list[i].role == ClusterNodeRole::Coordinator {
                assert(self@.contains_key(seen[i as int].id.0));
                return Some(list[i].clone());
            }
            assert(seen[i as int].role != ClusterNodeRole::Coordinator);
            i += 1;
        }
        None
    }

    /// Drops every peer that was not heard of within `window` seconds before `now`.
    pub fn keep_fresh(&mut self, now: u64, window: u64)
        requires
            old(self).wf(),
        ensures
            final(self).wf(),
            final(self)@ == fresh_peers(old(self)@, now, window as int),
    {
        let ghost before = self@;
        let list = self.list();
        let ghost seen = list.deep_view();
        let mut i: usize = 0;
        while i < list.len()
            invariant
                i <= list.len(),
                self.wf(),
                seen == list.deep_view(),
                lists(seen, before),
                forall|k: u128| #[trigger]
                    self@.contains_key(k) <==> before.contains_key(k) && !(exists|j: int|
                        0 <= j < i && (#[trigger] seen[j]).id.0 == k && !seen[j].is_fresh(
                            now,
                            window as int,
                        )),
                forall|k: u128| #[trigger] self@.contains_key(k) ==> self@[k] == before[k],
            decreases list.len() - i,
        {
            assert(seen[i as int] == list[i as int]@);
            if !(now.saturating_sub(list[i].last_heartbeat_secs) < window) {
                self.remove(&list[i].id);
            }
            i += 1;
        }
        proof {
            let kept = fresh_peers(before, now, window as int);
            assert forall|k: u128| self@.contains_key(k) <==> kept.contains_key(k) by {
                if before.contains_key(k) {
                    let j = choose|j: int| 0 <= j < seen.len() && #[trigger] seen[j] == before[k];
                    assert(filed_by_id(before));
                }
            }
            assert(self@ =~= kept);
        }
    }
}

/// What is seen of a table is what is filed in it, whole.
proof fn law_table_is_seen_as_it_is(peers: PeerTable, k: u128)
    ensures
        peers@.contains_key(k) <==> peers.map@.contains_key(k),
        peers@.contains_key(k) ==> {
            let (seen, filed) = (peers@[k], peers.map@[k]);
            &&& seen.id == filed.id
            &&& seen.name == filed.name@
            &&& seen.addr == filed.addr
            &&& seen.role == filed.role
            &&& seen.capabilities == filed.capabilities.deep_view()
            &&& seen.status == filed.status
            &&& seen.last_heartbeat_secs == filed.last_heartbeat_secs
            &&& seen.load_score == filed.load_score
        },
{
}

} // verus!
