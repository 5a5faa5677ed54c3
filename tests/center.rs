use std::collections::{BTreeMap, BTreeSet};

use easytier::center::{
    next_runner_action, same_peer_set, select_center_peer, JobEvent, ReportState, RunnerAction,
};
use easytier::peer_map::{
    DirectConnectedPeerInfo, FetchReply, GlobalPeerMap, PeerCenterState, PeerId,
    PeerInfoForGlobalMap,
};
use easytier::route_cost::RouteCostCalculator;

fn info(links: &[(PeerId, i32)]) -> PeerInfoForGlobalMap {
    let mut direct_peers = BTreeMap::new();
    for (id, latency_ms) in links {
        direct_peers.insert(*id, DirectConnectedPeerInfo { latency_ms: *latency_ms });
    }
    PeerInfoForGlobalMap { direct_peers }
}

/// The leader's map of the chain a - b - c.
fn chain_map(a: PeerId, b: PeerId, c: PeerId) -> GlobalPeerMap {
    let mut m = GlobalPeerMap::new();
    m.map.insert(a, info(&[(b, 3)]));
    m.map.insert(b, info(&[(a, 3), (c, 4)]));
    m.map.insert(c, info(&[(b, 4)]));
    m
}

#[test]
fn leader_election_picks_smallest_id() {
    assert_eq!(select_center_peer(7, &vec![3, 9]), Some(3));
    assert_eq!(select_center_peer(3, &vec![7, 9]), Some(3));
    assert_eq!(select_center_peer(9, &vec![7, 3]), Some(3));
}

#[test]
fn no_routes_no_leader() {
    assert_eq!(select_center_peer(5, &vec![]), None);
    assert_eq!(select_center_peer(0, &vec![4]), Some(0));
    assert_eq!(select_center_peer(u32::MAX, &vec![u32::MAX]), Some(u32::MAX));
}

#[test]
fn runner_sleeps_per_outcome() {
    assert_eq!(next_runner_action(JobEvent::NoLeader), RunnerAction::SleepMs(1000));
    assert_eq!(next_runner_action(JobEvent::TransportError), RunnerAction::SleepMs(3000));
    assert_eq!(next_runner_action(JobEvent::Finished(5000)), RunnerAction::SleepMs(5000));
    assert_eq!(next_runner_action(JobEvent::Finished(0)), RunnerAction::RunNow);
}

#[test]
fn fetch_outcomes() {
    let mut s = PeerCenterState::new(10_000);
    assert_eq!(s.apply_fetch(FetchReply::Failed, 11_000), 1000);
    assert_eq!(s.digest, 0);
    assert_eq!(s.update_time_ms, 10_000);
    assert_eq!(s.apply_fetch(FetchReply::Unchanged, 12_000), 5000);
    assert_eq!(s.update_time_ms, 10_000);
    assert_eq!(s.apply_fetch(FetchReply::Updated(chain_map(1, 2, 3), 77), 13_000), 5000);
    assert_eq!(s.digest, 77);
    assert_eq!(s.update_time_ms, 13_000);
    assert_eq!(s.global_map.map.len(), 3);
}

fn set(ids: &[PeerId]) -> BTreeSet<PeerId> {
    ids.iter().copied().collect()
}

#[test]
fn peer_sets_compare_as_sets() {
    assert!(same_peer_set(&set(&[1, 2, 3]), &set(&[3, 1, 2])));
    assert!(same_peer_set(&set(&[]), &set(&[])));
    assert!(!same_peer_set(&set(&[1, 2]), &set(&[1, 2, 3])));
    assert!(!same_peer_set(&set(&[1, 2, 3]), &set(&[1, 2])));
    assert!(!same_peer_set(&set(&[4]), &set(&[])));
    assert!(!same_peer_set(&set(&[4]), &set(&[5])));
}

#[test]
fn direct_peer_set_holds_the_neighbours() {
    let i = info(&[(9, 1), (2, 5), (4, 7)]);
    assert_eq!(i.direct_peer_set(), set(&[2, 4, 9]));
    assert!(info(&[]).direct_peer_set().is_empty());
}

#[test]
fn report_suppression() {
    let mut r = ReportState::new(0);
    let peers = set(&[2, 5]);
    assert!(r.should_report(3, &peers, 1_000));
    assert_eq!(r.on_report_result(3, peers.clone(), 1_000, true), 5000);
    // second iteration: same leader, same neighbours
    assert!(!r.should_report(3, &set(&[5, 2]), 6_000));
    assert!(!r.should_report(3, &peers, 60_999));
    assert!(r.should_report(3, &peers, 61_000));
    // a new leader or a new neighbour forces a report
    assert!(r.should_report(4, &peers, 6_000));
    assert!(r.should_report(3, &set(&[2]), 6_000));
}

#[test]
fn rejected_report_is_not_remembered() {
    let mut r = ReportState::new(0);
    assert_eq!(r.on_report_result(3, set(&[2]), 1_000, false), 5000);
    assert_eq!(r.last_center_peer, 0);
    assert!(r.last_report_peers.is_empty());
    assert_eq!(r.last_report_time_ms, 0);
}

#[test]
fn route_cost_update_cycle() {
    let mut s = PeerCenterState::new(5_000);
    let mut calc = RouteCostCalculator::new(s.update_time_ms);
    assert!(calc.need_update(s.update_time_ms));
    assert_eq!(calc.calculate_cost(1, 2), 80);
    s.apply_fetch(FetchReply::Updated(chain_map(1, 2, 3), 9), 8_000);
    calc.begin_update(&s.global_map);
    calc.end_update(s.update_time_ms);
    assert!(!calc.need_update(s.update_time_ms));
    assert_eq!(calc.calculate_cost(1, 2), 3);
    assert_eq!(calc.calculate_cost(2, 3), 4);
    assert_eq!(calc.calculate_cost(1, 3), 80);
    assert_eq!(calc.calculate_cost(7, 1), 80);
    s.apply_fetch(FetchReply::Updated(chain_map(1, 2, 3), 10), 9_000);
    assert!(calc.need_update(s.update_time_ms));
}

#[test]
fn test_peer_center_instance() {
    let (a, b, c): (PeerId, PeerId, PeerId) = (11, 22, 33);
    let center_peer = select_center_peer(a, &vec![b, c]).unwrap();
    assert_eq!(center_peer, a);
    assert_eq!(select_center_peer(b, &vec![a, c]), Some(center_peer));
    assert_eq!(select_center_peer(c, &vec![b, a]), Some(center_peer));

    let leader_digest = 0x5eed;
    let mut digest = None;
    for start in [1_000u64, 2_000, 3_000] {
        let mut node = PeerCenterState::new(start);
        // the first fetch sends the default digest, which is stale
        node.apply_fetch(FetchReply::Updated(chain_map(a, b, c), leader_digest), start + 10);
        // the next one finds the digest current
        node.apply_fetch(FetchReply::Unchanged, start + 5_010);
        assert_eq!(node.global_map.map.len(), 3);
        if digest.is_none() {
            digest = Some(node.digest);
        } else {
            assert_eq!(digest.unwrap(), node.digest);
        }

        let mut route_cost = RouteCostCalculator::new(node.update_time_ms);
        assert!(route_cost.need_update(node.update_time_ms));
        route_cost.begin_update(&node.global_map);
        assert!(route_cost.calculate_cost(a, b) < 30);
        assert!(route_cost.calculate_cost(b, a) < 30);
        assert!(route_cost.calculate_cost(b, c) < 30);
        assert!(route_cost.calculate_cost(c, b) < 30);
        assert!(route_cost.calculate_cost(c, a) > 50);
        assert!(route_cost.calculate_cost(a, c) > 50);
        route_cost.end_update(node.update_time_ms);
        assert!(!route_cost.need_update(node.update_time_ms));
    }
    assert_eq!(digest.unwrap(), leader_digest);
}
