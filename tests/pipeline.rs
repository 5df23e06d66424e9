use reth_node_core_runtime::pipeline::{
    backoff_delay, ExecutedBlock, Pipeline, PipelineError, Recovery, SealedHeader, StageError,
    StageId, MAX_RETRIES,
};

fn hash(n: u64, salt: u8) -> [u8; 32] {
    let mut h = [salt; 32];
    h[..8].copy_from_slice(&n.to_be_bytes());
    h
}

fn genesis() -> SealedHeader {
    SealedHeader { number: 0, hash: hash(0, 0), parent_hash: [0; 32], state_root: hash(0, 1) }
}

/// A chain of `n` valid executed blocks on top of `parent`.
fn blocks(parent: SealedHeader, n: u64) -> Vec<ExecutedBlock> {
    let mut out = Vec::new();
    let mut tip = parent;
    for _ in 0..n {
        let number = tip.number + 1;
        let header = SealedHeader {
            number,
            hash: hash(number, 0),
            parent_hash: tip.hash,
            state_root: hash(number, 1),
        };
        out.push(ExecutedBlock { header, computed_state_root: header.state_root });
        tip = header;
    }
    out
}

#[test]
fn checkpoint_counts_appended_blocks() {
    let mut p = Pipeline::new(genesis(), Pipeline::default_stages());
    assert_eq!(p.checkpoint(), 0);
    let batch = blocks(genesis(), 5);
    assert_eq!(p.run_batch(&batch), Ok(5));
    assert_eq!(p.checkpoint(), 5);
    for w in p.chain.windows(2) {
        assert!(w[0].number < w[1].number);
    }
    let more = blocks(p.tip(), 3);
    let mut last = p.checkpoint();
    for b in more {
        assert_eq!(p.run_batch(&vec![b]), Ok(last + 1));
        assert!(p.checkpoint() > last);
        last = p.checkpoint();
    }
    assert_eq!(p.checkpoint(), 8);
}

#[test]
fn empty_batch_keeps_checkpoint() {
    let mut p = Pipeline::new(genesis(), Pipeline::default_stages());
    assert_eq!(p.run_batch(&Vec::new()), Ok(0));
}

#[test]
fn unwind_and_rerun_reproduces_state_roots() {
    let mut p = Pipeline::new(genesis(), Pipeline::default_stages());
    let batch = blocks(genesis(), 6);
    p.run_batch(&batch).unwrap();
    let first_run: Vec<_> = (0..=6).map(|k| p.state_root_at(k).unwrap()).collect();
    p.unwind(3);
    assert_eq!(p.checkpoint(), 3);
    assert_eq!(p.state_root_at(3), Some(first_run[3]));
    assert_eq!(p.state_root_at(4), None);
    let rerun: Vec<ExecutedBlock> = batch[3..].to_vec();
    assert_eq!(p.run_batch(&rerun), Ok(6));
    for k in 0..=6 {
        assert_eq!(p.state_root_at(k), Some(first_run[k as usize]));
    }
}

#[test]
fn invalid_state_root_rejects_the_whole_batch() {
    let mut p = Pipeline::new(genesis(), Pipeline::default_stages());
    let mut batch = blocks(genesis(), 4);
    batch[2].computed_state_root = [0xff; 32];
    assert_eq!(p.run_batch(&batch), Err(PipelineError::InvalidBlock { number: 3 }));
    assert_eq!(p.checkpoint(), 0);
}

#[test]
fn detached_block_is_rejected() {
    let mut p = Pipeline::new(genesis(), Pipeline::default_stages());
    let batch = blocks(genesis(), 4);
    assert_eq!(p.run_batch(&batch[1..].to_vec()), Err(PipelineError::InvalidBlock { number: 2 }));
    assert_eq!(p.checkpoint(), 0);
}

#[test]
fn stage_failures_are_classified() {
    let mut p = Pipeline::new(genesis(), Pipeline::default_stages());
    p.run_batch(&blocks(genesis(), 2)).unwrap();
    assert_eq!(p.on_stage_error(StageError::Validation, 0), Recovery::Unwind { to: 2 });
    assert_eq!(p.on_stage_error(StageError::Transient, 0), Recovery::Retry { delay_ms: 100 });
    assert_eq!(p.on_stage_error(StageError::Transient, 3), Recovery::Retry { delay_ms: 800 });
    assert_eq!(p.on_stage_error(StageError::Transient, MAX_RETRIES), Recovery::Fatal);
    assert_eq!(p.on_stage_error(StageError::Fatal, 0), Recovery::Fatal);
    assert_eq!(backoff_delay(10), 102400);
    assert_eq!(backoff_delay(30), 102400);
}

#[test]
fn stages_run_in_declared_order_and_target_is_tracked() {
    let mut p = Pipeline::new(genesis(), Pipeline::default_stages());
    assert_eq!(p.stages[0], StageId::Headers);
    assert_eq!(p.stages[3], StageId::Execution);
    assert_eq!(p.stages[4], StageId::MerkleValidation);
    assert!(!p.reached_target());
    p.set_target(2);
    assert!(!p.reached_target());
    p.run_batch(&blocks(genesis(), 2)).unwrap();
    assert!(p.reached_target());
}
