use reth_node_core_runtime::exex::FinishedExExHeight;
use reth_node_core_runtime::pruner::{
    prune_target, PruneJob, PruneMode, PruneSegment, Pruner, SegmentState,
};

fn seg(segment: PruneSegment, mode: PruneMode) -> SegmentState {
    SegmentState { segment, mode, last_pruned: None }
}

#[test]
fn target_respects_reorg_depth_and_extensions() {
    assert_eq!(prune_target(PruneMode::Full, 1000, 64, FinishedExExHeight::NoExExs), Some(936));
    assert_eq!(prune_target(PruneMode::Full, 1000, 64, FinishedExExHeight::Height(500)), Some(500));
    assert_eq!(prune_target(PruneMode::Full, 1000, 64, FinishedExExHeight::NotReady), None);
    assert_eq!(prune_target(PruneMode::Distance(10), 1000, 64, FinishedExExHeight::NoExExs), Some(936));
    assert_eq!(prune_target(PruneMode::Distance(100), 1000, 64, FinishedExExHeight::NoExExs), Some(900));
    assert_eq!(prune_target(PruneMode::Before(300), 1000, 64, FinishedExExHeight::Height(700)), Some(299));
    assert_eq!(prune_target(PruneMode::Before(0), 1000, 64, FinishedExExHeight::NoExExs), None);
    assert_eq!(prune_target(PruneMode::Full, 63, 64, FinishedExExHeight::NoExExs), None);
    assert_eq!(prune_target(PruneMode::Full, 64, 64, FinishedExExHeight::NoExExs), Some(0));
    assert_eq!(prune_target(PruneMode::Distance(2000), 1000, 64, FinishedExExHeight::NoExExs), None);
}

#[test]
fn never_prunes_above_floors_for_any_tip() {
    for tip in (0..2000u64).step_by(37) {
        for exex in [FinishedExExHeight::NoExExs, FinishedExExHeight::Height(tip / 2), FinishedExExHeight::NotReady] {
            for mode in [PruneMode::Full, PruneMode::Distance(5), PruneMode::Before(1500)] {
                if let Some(t) = prune_target(mode, tip, 128, exex) {
                    assert!(t + 128 <= tip);
                    if let FinishedExExHeight::Height(h) = exex {
                        assert!(t <= h);
                    }
                    assert_ne!(exex, FinishedExExHeight::NotReady);
                }
            }
        }
    }
}

#[test]
fn run_makes_jobs_and_failures_are_retried() {
    let mut p = Pruner::new(
        vec![seg(PruneSegment::Receipts, PruneMode::Distance(100)), seg(PruneSegment::TransactionLookup, PruneMode::Before(50))],
        64,
        5,
    );
    assert!(p.is_pruning_needed(1000));
    let jobs = p.run(1000, FinishedExExHeight::NoExExs);
    assert_eq!(
        jobs,
        vec![
            PruneJob { index: 0, segment: PruneSegment::Receipts, from: 0, to: 900 },
            PruneJob { index: 1, segment: PruneSegment::TransactionLookup, from: 0, to: 49 },
        ]
    );
    assert!(!p.is_pruning_needed(1004));
    assert!(p.is_pruning_needed(1005));
    p.on_job_done(&jobs[0], true);
    p.on_job_done(&jobs[1], false);
    assert_eq!(p.segments[0].last_pruned, Some(900));
    assert_eq!(p.segments[1].last_pruned, None);
    let jobs = p.run(1010, FinishedExExHeight::NoExExs);
    assert_eq!(
        jobs,
        vec![
            PruneJob { index: 0, segment: PruneSegment::Receipts, from: 901, to: 910 },
            PruneJob { index: 1, segment: PruneSegment::TransactionLookup, from: 0, to: 49 },
        ]
    );
    p.on_job_done(&jobs[1], true);
    let jobs = p.run(1010, FinishedExExHeight::NoExExs);
    assert_eq!(jobs, vec![PruneJob { index: 0, segment: PruneSegment::Receipts, from: 901, to: 910 }]);
}

#[test]
fn extensions_hold_back_pruning() {
    let mut p = Pruner::new(vec![seg(PruneSegment::AccountHistory, PruneMode::Full)], 10, 1);
    assert!(p.run(1000, FinishedExExHeight::NotReady).is_empty());
    let jobs = p.run(1000, FinishedExExHeight::Height(400));
    assert_eq!(jobs[0].to, 400);
}
