//! The global peer map: for each peer, its direct neighbours and the
//! latency measured to each.
use vstd::prelude::*;
use std::collections::{BTreeMap, BTreeSet};
use vstd::std_specs::iter::IteratorSpec;

verus! {

/// Stable, totally ordered node identifier.
pub type PeerId = u32;

/// Opaque content hash of a global peer map.
pub type Digest = u64;

/// What is known of one direct link.
#[derive(Debug, Clone, Copy, PartialEq, Eq, Structural)]
pub struct DirectConnectedPeerInfo {
    pub latency_ms: i32,
}

/// One peer's entry in the global map: its direct neighbours.
#[derive(Debug, Clone)]
pub struct PeerInfoForGlobalMap {
    pub direct_peers: BTreeMap<PeerId, DirectConnectedPeerInfo>,
}

impl PeerInfoForGlobalMap {
    /// The set of direct neighbour ids.
    pub fn direct_peer_set(&self) -> (r: BTreeSet<PeerId>)
        ensures
            r@ == self.direct_peers@.dom(),
    {
        broadcast use vstd::std_specs::btree::group_btree_axioms;
        let mut out: BTreeSet<PeerId> = BTreeSet::new();
        let keys = self.direct_peers.keys();
        let ghost all = keys.remaining();
        for k in it: keys
            invariant
                it.seq() == all,
                all.unref().to_set() == self.direct_peers@.dom(),
                out@ == all.take(it.index() as int).unref().to_set(),
        {
            out.insert(*k);
            proof {
                let i = it.index() as int;
                assert(all.take(i + 1).unref() =~= all.take(i).unref().push(*all[i]));
                all.take(i).unref().lemma_push_to_set_commute(*all[i]);
            }
        }
        proof {
            assert(all.take(all.len() as int) =~= all);
        }
        out
    }
}

/// Mapping from each peer to its direct-neighbour info.
pub struct GlobalPeerMap {
    pub map: BTreeMap<PeerId, PeerInfoForGlobalMap>,
}

impl GlobalPeerMap {
    pub fn new() -> (r: Self)
        ensures
            r.map@ == Map::<PeerId, PeerInfoForGlobalMap>::empty(),
    {
        GlobalPeerMap { map: BTreeMap::new() }
    }

    /// A copy with the same entries.
    pub fn snapshot(&self) -> (r: Self)
        ensures
            r.map@ == self.map@,
    {
        GlobalPeerMap { map: self.map.clone() }
    }
}

/// Delay after a fetch whose reply carried an application error.
pub const FETCH_ERROR_SLEEP_MS: u32 = 1000;

/// Delay after a completed periodic job.
pub const JOB_SLEEP_MS: u32 = 5000;

/// What the leader answered to a request for the global map.
pub enum FetchReply {
    /// The call went through but the leader reported an error.
    Failed,
    /// The digest that was sent is current: nothing to transfer.
    Unchanged,
    /// A newer map and its digest.
    Updated(GlobalPeerMap, Digest),
}

/// A leader's reply that keeps the protocol: `Unchanged` only when the
/// digest sent matches its own, and an update carrying its own map and
/// digest.
pub open spec fn reply_follows_leader(
    reply: FetchReply,
    sent: Digest,
    leader_map: Map<PeerId, PeerInfoForGlobalMap>,
    leader_digest: Digest,
) -> bool {
    match reply {
        FetchReply::Failed => true,
        FetchReply::Unchanged => sent == leader_digest,
        FetchReply::Updated(m, d) => m.map@ == leader_map && d == leader_digest,
    }
}

/// The digest a node holds after applying `reply` to a state holding `held`.
pub open spec fn digest_after(held: Digest, reply: FetchReply) -> Digest {
    match reply {
        FetchReply::Updated(_, d) => d,
        _ => held,
    }
}

/// The per-node view of the global map fed by the fetch job.
pub struct PeerCenterState {
    pub global_map: GlobalPeerMap,
    pub digest: Digest,
    /// Time of the last map update, in milliseconds of a monotonic clock.
    pub update_time_ms: u64,
}

impl PeerCenterState {
    /// An empty map with the default digest, stamped `now_ms`.
    pub fn new(now_ms: u64) -> (r: Self)
        ensures
            r.global_map.map@ == Map::<PeerId, PeerInfoForGlobalMap>::empty(),
            r.digest == 0,
            r.update_time_ms == now_ms,
    {
        PeerCenterState { global_map: GlobalPeerMap::new(), digest: 0, update_time_ms: now_ms }
    }

    /// Applies the leader's reply to a fetch made at `now_ms`, and returns
    /// how long the job sleeps before the next one.
    pub fn apply_fetch(&mut self, reply: FetchReply, now_ms: u64) -> (sleep_ms: u32)
        ensures
            final(self).digest == digest_after(old(self).digest, reply),
            match reply {
                FetchReply::Failed => {
                    &&& sleep_ms == FETCH_ERROR_SLEEP_MS
                    &&& final(self).global_map.map@ == old(self).global_map.map@
                    &&& final(self).update_time_ms == old(self).update_time_ms
                },
                FetchReply::Unchanged => {
                    &&& sleep_ms == JOB_SLEEP_MS
                    &&& final(self).global_map.map@ == old(self).global_map.map@
                    &&& final(self).update_time_ms == old(self).update_time_ms
                },
                FetchReply::Updated(m, d) => {
                    &&& sleep_ms == JOB_SLEEP_MS
                    &&& final(self).global_map.map@ == m.map@
                    &&& final(self).update_time_ms == now_ms
                },
            },
    {
        match reply {
            FetchReply::Failed => FETCH_ERROR_SLEEP_MS,
            FetchReply::Unchanged => JOB_SLEEP_MS,
            FetchReply::Updated(m, d) => {
                self.global_map = m;
                self.digest = d;
                self.update_time_ms = now_ms;
                JOB_SLEEP_MS
            },
        }
    }
}

/// A node that sends the digest it holds and gets a reply that keeps the
/// protocol, other than an error, holds the leader's digest afterwards.
pub proof fn lemma_fetch_reaches_leader_digest(
    held: Digest,
    reply: FetchReply,
    leader_map: Map<PeerId, PeerInfoForGlobalMap>,
    leader_digest: Digest,
)
    requires
        reply_follows_leader(reply, held, leader_map, leader_digest),
        !(reply is Failed),
    ensures
        digest_after(held, reply) == leader_digest,
{
}

} // verus!
