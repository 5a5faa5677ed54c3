//! Edge costs for the router, served from a point-in-time copy of the
//! global peer map.
use vstd::prelude::*;
use crate::peer_map::{GlobalPeerMap, PeerId, PeerInfoForGlobalMap};

verus! {

/// Cost of an edge that the snapshot does not know.
pub const DEFAULT_COST: i32 = 80;

/// How far before the current map timestamp a fresh calculator dates its
/// copy, so that it asks for an update at once.
pub const INITIAL_LAG_MS: u64 = 1000;

/// Latency from `src` to its direct neighbour `dst` in `m`, or the default.
pub open spec fn cost_in(m: Map<PeerId, PeerInfoForGlobalMap>, src: PeerId, dst: PeerId) -> i32 {
    if m.contains_key(src) && m[src].direct_peers@.contains_key(dst) {
        m[src].direct_peers@[dst].latency_ms
    } else {
        DEFAULT_COST
    }
}

/// Single-consumer cost calculator over a snapshot of the global map.
pub struct RouteCostCalculator {
    pub snapshot: GlobalPeerMap,
    /// Map timestamp that the snapshot was last taken against.
    pub last_update_time_ms: u64,
}

impl RouteCostCalculator {
    /// Whether the instance's map, stamped `map_time_ms`, is newer than
    /// what the calculator last took.
    pub open spec fn needs_update(&self, map_time_ms: u64) -> bool {
        self.last_update_time_ms < map_time_ms
    }

    /// `after` is `before` with its snapshot replaced by the entries of `current`.
    pub open spec fn began(before: Self, after: Self, current: GlobalPeerMap) -> bool {
        &&& after.snapshot.map@ == current.map@
        &&& after.last_update_time_ms == before.last_update_time_ms
    }

    /// `after` is `before` with the map timestamp `map_time_ms` recorded.
    pub open spec fn ended(before: Self, after: Self, map_time_ms: u64) -> bool {
        &&& after.snapshot.map@ == before.snapshot.map@
        &&& after.last_update_time_ms == map_time_ms
    }

    /// A calculator with an empty snapshot, dated one second before the
    /// instance's map timestamp.
    pub fn new(map_time_ms: u64) -> (r: Self)
        requires
            map_time_ms >= INITIAL_LAG_MS,
        ensures
            r.snapshot.map@ == Map::<PeerId, PeerInfoForGlobalMap>::empty(),
            r.last_update_time_ms == map_time_ms - INITIAL_LAG_MS,
            r.needs_update(map_time_ms),
    {
        RouteCostCalculator {
            snapshot: GlobalPeerMap::new(),
            last_update_time_ms: map_time_ms - INITIAL_LAG_MS,
        }
    }

    /// The latency of the edge `src` to `dst` in the snapshot, or the default.
    pub fn calculate_cost(&self, src: PeerId, dst: PeerId) -> (r: i32)
        ensures
            r == cost_in(self.snapshot.map@, src, dst),
    {
        broadcast use vstd::std_specs::btree::group_btree_axioms;
        match self.snapshot.map.get(&src) {
            Some(info) => match info.direct_peers.get(&dst) {
                Some(link) => link.latency_ms,
                None => DEFAULT_COST,
            },
            None => DEFAULT_COST,
        }
    }

    /// Copies the instance's current map into the snapshot.
    pub fn begin_update(&mut self, current: &GlobalPeerMap)
        ensures
            Self::began(*old(self), *final(self), *current),
    {
        self.snapshot = current.snapshot();
    }

    /// Records the instance's map timestamp as the one now taken.
    pub fn end_update(&mut self, map_time_ms: u64)
        ensures
            Self::ended(*old(self), *final(self), map_time_ms),
    {
        self.last_update_time_ms = map_time_ms;
    }

    /// True iff the instance's map is newer than the snapshot's record.
    pub fn need_update(&self, map_time_ms: u64) -> (r: bool)
        ensures
            r == self.needs_update(map_time_ms),
    {
        self.last_update_time_ms < map_time_ms
    }
}

/// Across a `begin_update` / `end_update` pair with no map update in
/// between, `need_update` goes from true to false, and the snapshot holds
/// the map that was current.
pub proof fn lemma_update_pair_settles(
    before: RouteCostCalculator,
    mid: RouteCostCalculator,
    after: RouteCostCalculator,
    current: GlobalPeerMap,
    map_time_ms: u64,
)
    requires
        before.needs_update(map_time_ms),
        RouteCostCalculator::began(before, mid, current),
        RouteCostCalculator::ended(mid, after, map_time_ms),
    ensures
        !after.needs_update(map_time_ms),
        after.snapshot.map@ == current.map@,
{
}

} // verus!
