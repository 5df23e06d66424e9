use reth_node_core_runtime::engine::{
    EngineHooks, HookAction, HookEvent,
    BeaconEngineMessage, ChannelError, ConsensusEngine, EngineChannel, EngineState,
    ExecutionOutcome, ForkchoiceState, IngressFilter, PayloadStatus, Writer,
};
use reth_node_core_runtime::pipeline::SealedHeader;

fn header(n: u8, parent: u8) -> SealedHeader {
    SealedHeader { number: n as u64, hash: [n; 32], parent_hash: [parent; 32], state_root: [n; 32] }
}

fn fcu(head: u8) -> BeaconEngineMessage {
    BeaconEngineMessage::ForkchoiceUpdated {
        state: ForkchoiceState { head: [head; 32], safe: [head; 32], finalized: [0; 32] },
    }
}

#[test]
fn unknown_head_syncs_then_goes_live() {
    let mut e = ConsensusEngine::new(header(0, 0), None);
    assert_eq!(e.state, EngineState::Syncing);
    assert_eq!(e.write_authority(), Writer::Pipeline);
    let mut ch = EngineChannel::new(4);
    ch.send(fcu(5)).unwrap();
    let m = ch.recv().unwrap();
    let r = e.on_message(&m, ExecutionOutcome::Valid);
    assert_eq!(r.status, PayloadStatus::Syncing);
    assert_eq!(e.state, EngineState::Syncing);
    assert_eq!(e.target, Some([5; 32]));
    e.on_pipeline_synced(header(4, 3));
    assert_eq!(e.state, EngineState::Syncing);
    e.on_pipeline_synced(header(5, 4));
    assert_eq!(e.state, EngineState::Live);
    assert_eq!(e.forkchoice.head, [5; 32]);
    assert_eq!(e.target, None);
    assert_eq!(e.write_authority(), Writer::EngineTree);
}

#[test]
fn payloads_while_syncing_report_syncing() {
    let mut e = ConsensusEngine::new(header(0, 0), None);
    let m = reth_node_core_runtime::engine::EnqueuedMessage {
        seq: 0,
        msg: BeaconEngineMessage::NewPayload { block: header(1, 0) },
    };
    assert!(!e.needs_execution(&m.msg));
    let r = e.on_message(&m, ExecutionOutcome::Valid);
    assert_eq!(r.status, PayloadStatus::Syncing);
    assert!(!e.is_known(&[1; 32]));
}

#[test]
fn live_engine_validates_payloads() {
    let mut e = ConsensusEngine::new(header(0, 0), Some([0; 32]));
    e.on_pipeline_synced(header(0, 0));
    assert_eq!(e.state, EngineState::Live);
    let mut ch = EngineChannel::new(8);
    ch.send(BeaconEngineMessage::NewPayload { block: header(1, 0) }).unwrap();
    ch.send(BeaconEngineMessage::NewPayload { block: header(2, 1) }).unwrap();
    ch.send(BeaconEngineMessage::NewPayload { block: header(9, 8) }).unwrap();
    let m = ch.recv().unwrap();
    assert!(e.needs_execution(&m.msg));
    let r = e.on_message(&m, ExecutionOutcome::Invalid);
    assert_eq!(r.status, PayloadStatus::Invalid);
    assert_eq!(r.latest_valid_hash, Some([0; 32]));
    assert!(!e.is_known(&[1; 32]));
    let r = e.on_message(&m, ExecutionOutcome::Valid);
    assert_eq!(r.status, PayloadStatus::Valid);
    assert_eq!(r.latest_valid_hash, Some([1; 32]));
    let r = e.on_message(&ch.recv().unwrap(), ExecutionOutcome::Valid);
    assert_eq!(r.status, PayloadStatus::Valid);
    let r = e.on_message(&ch.recv().unwrap(), ExecutionOutcome::Valid);
    assert_eq!(r.status, PayloadStatus::Accepted);
    let r = e.on_message(&reth_node_core_runtime::engine::EnqueuedMessage { seq: 9, msg: fcu(2) }, ExecutionOutcome::Valid);
    assert_eq!(r.status, PayloadStatus::Valid);
    assert_eq!(e.forkchoice.head, [2; 32]);
    // a forkchoice update to an unknown ancestor re-syncs
    let r = e.on_message(&reth_node_core_runtime::engine::EnqueuedMessage { seq: 10, msg: fcu(7) }, ExecutionOutcome::Valid);
    assert_eq!(r.status, PayloadStatus::Syncing);
    assert_eq!(e.state, EngineState::Syncing);
    assert_eq!(e.forkchoice.head, [2; 32]);
}

#[test]
fn messages_are_processed_in_enqueue_order() {
    let mut ch = EngineChannel::new(16);
    let msgs = vec![
        fcu(3),
        BeaconEngineMessage::NewPayload { block: header(1, 0) },
        fcu(0),
        BeaconEngineMessage::NewPayload { block: header(2, 1) },
    ];
    for (i, m) in msgs.iter().enumerate() {
        assert_eq!(ch.send(*m), Ok(i as u64));
    }
    let queue = ch.drain();
    assert_eq!(ch.len(), 0);
    assert_eq!(queue.iter().map(|m| m.seq).collect::<Vec<_>>(), vec![0, 1, 2, 3]);
    assert_eq!(queue.iter().map(|m| m.msg).collect::<Vec<_>>(), msgs);
    let mut e = ConsensusEngine::new(header(0, 0), None);
    let outcomes = vec![ExecutionOutcome::Valid; 4];
    let responses = e.process_all(&queue, &outcomes);
    assert_eq!(responses.iter().map(|r| r.seq).collect::<Vec<_>>(), vec![0, 1, 2, 3]);
    assert_eq!(responses[0].status, PayloadStatus::Syncing);
    assert_eq!(responses[2].status, PayloadStatus::Valid);
}

#[test]
fn full_channel_refuses() {
    let mut ch = EngineChannel::new(2);
    assert_eq!(ch.send(fcu(1)), Ok(0));
    assert_eq!(ch.send(fcu(2)), Ok(1));
    assert_eq!(ch.send(fcu(3)), Err(ChannelError::Full));
    assert_eq!(ch.len(), 2);
    assert_eq!(ch.recv().unwrap().seq, 0);
    assert_eq!(ch.send(fcu(3)), Ok(2));
    assert_eq!(ch.recv().unwrap().seq, 1);
    assert_eq!(ch.recv().unwrap().seq, 2);
    assert!(ch.recv().is_none());
}

#[test]
fn ingress_filter_drops_skipped_kinds() {
    let f = IngressFilter { skip_fcu: true, skip_new_payload: false };
    assert!(!f.admits(&fcu(1)));
    assert!(f.admits(&BeaconEngineMessage::NewPayload { block: header(1, 0) }));
    let g = IngressFilter { skip_fcu: false, skip_new_payload: true };
    assert!(g.admits(&fcu(1)));
    assert!(!g.admits(&BeaconEngineMessage::NewPayload { block: header(1, 0) }));
}

#[test]
fn hooks_run_one_background_task_at_a_time() {
    let mut h = EngineHooks::new(2);
    assert_eq!(h.poll(0, false), HookAction::Skip);
    assert_eq!(h.poll(0, true), HookAction::Spawn);
    assert_eq!(h.poll(0, true), HookAction::Skip);
    assert_eq!(h.poll(1, true), HookAction::Spawn);
    assert_eq!(h.on_task_done(0, false), HookEvent::Failed);
    assert_eq!(h.poll(0, true), HookAction::Spawn);
    assert_eq!(h.on_task_done(1, true), HookEvent::Finished);
    assert_eq!(h.poll(5, true), HookAction::Skip);
    assert_eq!(h.in_flight, vec![true, false]);
}
