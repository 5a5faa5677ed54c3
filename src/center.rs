//! Center-peer election and the decisions of the periodic coordinator
//! jobs: when to sleep, and when a report to the leader is due.
use vstd::prelude::*;
use std::collections::BTreeSet;
use vstd::std_specs::iter::IteratorSpec;
use crate::peer_map::{JOB_SLEEP_MS, PeerId};

verus! {

/// RPC service id of the peer-center service on the leader.
pub const SERVICE_ID: u32 = 50;

/// Delay before electing again when no leader could be chosen.
pub const NO_LEADER_SLEEP_MS: u64 = 1000;

/// Delay after a transport failure of the RPC to the leader.
pub const TRANSPORT_ERROR_SLEEP_MS: u64 = 3000;

/// A report younger than this is not repeated while nothing changed.
pub const REPORT_INTERVAL_MS: u64 = 60_000;

/// `m` is the least of `my_id` and the ids in `routes`.
pub open spec fn is_min_peer(m: PeerId, my_id: PeerId, routes: Seq<PeerId>) -> bool {
    &&& (m == my_id || routes.contains(m))
    &&& m <= my_id
    &&& forall|i: int| 0 <= i < routes.len() ==> m <= routes[i]
}

/// Elects the center peer: none while there are no routes, else the least
/// id among this node and the peers it has routes to.
pub fn select_center_peer(my_id: PeerId, routes: &Vec<PeerId>) -> (r: Option<PeerId>)
    ensures
        r is None <==> routes@.len() == 0,
        r matches Some(m) ==> is_min_peer(m, my_id, routes@),
{
    if routes.len() == 0 {
        return None;
    }
    let mut min_peer = my_id;
    let mut i: usize = 0;
    while i < routes.len()
        invariant
            0 <= i <= routes@.len(),
            min_peer == my_id || routes@.subrange(0, i as int).contains(min_peer),
            min_peer <= my_id,
            forall|j: int| 0 <= j < i ==> min_peer <= routes@[j],
        decreases routes@.len() - i,
    {
        let peer_id = routes[i];
        if peer_id < min_peer {
            min_peer = peer_id;
            assert(routes@.subrange(0, i + 1)[i as int] == peer_id);
        } else if min_peer != my_id {
            let ghost k = choose|k: int| 0 <= k < i && routes@.subrange(0, i as int)[k] == min_peer;
            assert(routes@.subrange(0, i + 1)[k] == min_peer);
        }
        i = i + 1;
    }
    proof {
        assert(routes@.subrange(0, i as int) =~= routes@);
    }
    Some(min_peer)
}

/// What ended one iteration of a periodic job.
#[derive(Debug, Clone, Copy, PartialEq, Eq, Structural)]
pub enum JobEvent {
    /// No leader could be elected.
    NoLeader,
    /// The RPC to the leader failed in transport.
    TransportError,
    /// The job ran and asked to sleep this many milliseconds.
    Finished(u32),
}

/// What the runner does before the next iteration.
#[derive(Debug, Clone, Copy, PartialEq, Eq, Structural)]
pub enum RunnerAction {
    RunNow,
    SleepMs(u64),
}

/// The runner's decision after an iteration that ended with `event`.
pub open spec fn runner_action_for(event: JobEvent) -> RunnerAction {
    match event {
        JobEvent::NoLeader => RunnerAction::SleepMs(NO_LEADER_SLEEP_MS),
        JobEvent::TransportError => RunnerAction::SleepMs(TRANSPORT_ERROR_SLEEP_MS),
        JobEvent::Finished(ms) => if ms == 0 {
            RunnerAction::RunNow
        } else {
            RunnerAction::SleepMs(ms as u64)
        },
    }
}

/// Decides how the periodic-job runner goes on after `event`.
pub fn next_runner_action(event: JobEvent) -> (r: RunnerAction)
    ensures
        r == runner_action_for(event),
{
    match event {
        JobEvent::NoLeader => RunnerAction::SleepMs(NO_LEADER_SLEEP_MS),
        JobEvent::TransportError => RunnerAction::SleepMs(TRANSPORT_ERROR_SLEEP_MS),
        JobEvent::Finished(ms) => if ms == 0 {
            RunnerAction::RunNow
        } else {
            RunnerAction::SleepMs(ms as u64)
        },
    }
}

/// Every id of `a` is in `b`.
fn all_within(a: &BTreeSet<PeerId>, b: &BTreeSet<PeerId>) -> (r: bool)
    ensures
        r <==> a@.subset_of(b@),
{
    broadcast use vstd::std_specs::btree::group_btree_axioms;
    let ids = a.iter();
    let ghost all = ids.remaining();
    for x in it: ids
        invariant
            it.seq() == all,
            all.unref().to_set() == a@,
            forall|j: int| 0 <= j < it.index() ==> b@.contains(*all[j]),
    {
        if !b.contains(x) {
            proof {
                assert(all.unref()[it.index() as int] == *x);
                assert(a@.contains(*x));
            }
            return false;
        }
    }
    proof {
        assert forall|y: PeerId| a@.contains(y) implies b@.contains(y) by {
            assert(all.unref().contains(y));
            let j = choose|j: int| 0 <= j < all.unref().len() && all.unref()[j] == y;
            assert(*all[j] == y);
        }
    }
    true
}

/// Whether two sets of peers are equal.
pub fn same_peer_set(a: &BTreeSet<PeerId>, b: &BTreeSet<PeerId>) -> (r: bool)
    ensures
        r == (a@ == b@),
{
    let r = all_within(a, b) && all_within(b, a);
    proof {
        if a@.subset_of(b@) && b@.subset_of(a@) {
            assert(a@ =~= b@);
        }
    }
    r
}

/// Milliseconds from `since_ms` to `now_ms`, zero if the clock reads earlier.
pub open spec fn elapsed_ms(since_ms: u64, now_ms: u64) -> int {
    if now_ms >= since_ms {
        now_ms - since_ms
    } else {
        0
    }
}

/// What the report job remembers of its last accepted report.
pub struct ReportState {
    pub last_center_peer: PeerId,
    pub last_report_peers: BTreeSet<PeerId>,
    pub last_report_time_ms: u64,
}

impl ReportState {
    /// A report is due unless the leader, the direct-peer set and the
    /// freshness of the last report are all unchanged.
    pub open spec fn report_due(&self, center: PeerId, peers: Set<PeerId>, now_ms: u64) -> bool {
        !(center == self.last_center_peer && elapsed_ms(self.last_report_time_ms, now_ms)
            < REPORT_INTERVAL_MS && peers == self.last_report_peers@)
    }

    /// Nothing reported yet: default leader id, no peers, stamped `now_ms`.
    pub fn new(now_ms: u64) -> (r: Self)
        ensures
            r.last_center_peer == 0,
            r.last_report_peers@ == Set::<PeerId>::empty(),
            r.last_report_time_ms == now_ms,
    {
        ReportState {
            last_center_peer: 0,
            last_report_peers: BTreeSet::new(),
            last_report_time_ms: now_ms,
        }
    }

    /// Whether this iteration sends a report to `center` for `peers`.
    pub fn should_report(&self, center: PeerId, peers: &BTreeSet<PeerId>, now_ms: u64) -> (r: bool)
        ensures
            r == self.report_due(center, peers@, now_ms),
    {
        let elapsed: u64 = if now_ms >= self.last_report_time_ms {
            now_ms - self.last_report_time_ms
        } else {
            0
        };
        let unchanged = center == self.last_center_peer && elapsed < REPORT_INTERVAL_MS
            && same_peer_set(peers, &self.last_report_peers);
        !unchanged
    }

    /// Records the leader's answer to a report of `peers` to `center` sent
    /// at `now_ms`, and returns how long the job sleeps.
    pub fn on_report_result(
        &mut self,
        center: PeerId,
        peers: BTreeSet<PeerId>,
        now_ms: u64,
        accepted: bool,
    ) -> (sleep_ms: u32)
        ensures
            sleep_ms == JOB_SLEEP_MS,
            accepted ==> {
                &&& final(self).last_center_peer == center
                &&& final(self).last_report_peers@ == peers@
                &&& final(self).last_report_time_ms == now_ms
            },
            !accepted ==> {
                &&& final(self).last_center_peer == old(self).last_center_peer
                &&& final(self).last_report_peers@ == old(self).last_report_peers@
                &&& final(self).last_report_time_ms == old(self).last_report_time_ms
            },
    {
        if accepted {
            self.last_center_peer = center;
            self.last_report_peers = peers;
            self.last_report_time_ms = now_ms;
        }
        JOB_SLEEP_MS
    }
}

/// After a report of `peers` to `center` was accepted at `sent_ms`, an
/// iteration with the same leader and the same peer set less than a report
/// interval later sends nothing.
pub proof fn lemma_report_suppressed(
    after: ReportState,
    center: PeerId,
    peers: Set<PeerId>,
    sent_ms: u64,
    later_peers: Set<PeerId>,
    now_ms: u64,
)
    requires
        after.last_center_peer == center,
        after.last_report_peers@ == peers,
        after.last_report_time_ms == sent_ms,
        later_peers == peers,
        sent_ms <= now_ms < sent_ms + REPORT_INTERVAL_MS,
    ensures
        !after.report_due(center, later_peers, now_ms),
{
}

/// A change of leader always makes a report due.
pub proof fn lemma_leader_change_forces_report(
    s: ReportState,
    center: PeerId,
    peers: Set<PeerId>,
    now_ms: u64,
)
    requires
        center != s.last_center_peer,
    ensures
        s.report_due(center, peers, now_ms),
{
}

} // verus!
