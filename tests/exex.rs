use reth_node_core_runtime::exex::{
    ExExError, ExExManager, ExExNotification, FailureAction, FailurePolicy, FinishedExExHeight,
};

fn commit(n: u64) -> ExExNotification {
    ExExNotification::ChainCommitted { first: n, last: n }
}

#[test]
fn slow_and_fast_extensions_each_see_every_block_once_in_order() {
    let mut m = ExExManager::new(100);
    let fast = m.register();
    let slow = m.register();
    let mut seen_fast = Vec::new();
    let mut seen_slow = Vec::new();
    for n in 1..=10 {
        m.notify(commit(n)).unwrap();
        while let Some(x) = m.next_for(fast) {
            seen_fast.push(x);
        }
        if n % 3 == 0 {
            if let Some(x) = m.next_for(slow) {
                seen_slow.push(x);
            }
        }
    }
    m.notify(ExExNotification::ChainReverted { first: 10, last: 10 }).unwrap();
    while let Some(x) = m.next_for(fast) {
        seen_fast.push(x);
    }
    assert_eq!(seen_slow.len(), 3);
    while let Some(x) = m.next_for(slow) {
        seen_slow.push(x);
    }
    let mut expected: Vec<_> = (1..=10).map(commit).collect();
    expected.push(ExExNotification::ChainReverted { first: 10, last: 10 });
    assert_eq!(seen_fast, expected);
    assert_eq!(seen_slow, expected);
}

#[test]
fn full_buffer_holds_back_commits() {
    let mut m = ExExManager::new(2);
    let a = m.register();
    assert!(m.has_capacity());
    m.notify(commit(1)).unwrap();
    m.notify(commit(2)).unwrap();
    assert!(!m.has_capacity());
    assert_eq!(m.notify(commit(3)), Err(ExExError::BufferFull));
    assert_eq!(m.next_for(a), Some(commit(1)));
    assert_eq!(m.notify(commit(3)), Ok(()));
}

#[test]
fn finished_height_is_minimum_over_extensions() {
    let mut m = ExExManager::new(10);
    assert_eq!(m.finished_height(), FinishedExExHeight::NoExExs);
    let a = m.register();
    let b = m.register();
    assert_eq!(m.num_extensions(), 2);
    assert_eq!(m.finished_height(), FinishedExExHeight::NotReady);
    m.on_finished_height(a, 50).unwrap();
    assert_eq!(m.finished_height(), FinishedExExHeight::NotReady);
    m.on_finished_height(b, 20).unwrap();
    assert_eq!(m.finished_height(), FinishedExExHeight::Height(20));
    m.on_finished_height(b, 10).unwrap();
    assert_eq!(m.finished_height(), FinishedExExHeight::Height(20));
    m.on_finished_height(b, 70).unwrap();
    assert_eq!(m.finished_height(), FinishedExExHeight::Height(50));
    assert_eq!(m.on_finished_height(9, 1), Err(ExExError::UnknownExEx));
}

#[test]
fn isolated_failure_lets_others_continue() {
    let mut m = ExExManager::new(1);
    let a = m.register();
    let b = m.register();
    m.on_finished_height(a, 5).unwrap();
    m.on_finished_height(b, 3).unwrap();
    m.notify(commit(1)).unwrap();
    assert_eq!(m.on_failure(b, FailurePolicy::Isolate), FailureAction::Continue);
    assert_eq!(m.finished_height(), FinishedExExHeight::Height(5));
    assert_eq!(m.next_for(b), None);
    assert_eq!(m.next_for(a), Some(commit(1)));
    assert_eq!(m.notify(commit(2)), Ok(()));
    assert_eq!(m.on_failure(a, FailurePolicy::Fatal), FailureAction::ShutdownNode);
}
