//! The block import pipeline: advances the canonical chain through batches of
//! blocks that every stage has passed, unwinds on request, and classifies stage
//! failures into retry, unwind or fatal.

use vstd::prelude::*;

verus! {

/// A 32-byte hash.
pub type B256 = [u8; 32];

/// Whether two hashes are equal.
pub fn hash_eq(a: &B256, b: &B256) -> (r: bool)
    ensures
        r == (*a == *b),
{
    let mut i: usize = 0;
    while i < 32
        invariant
            i <= 32,
            forall|j: int| 0 <= j < i ==> a[j] == b[j],
        decreases 32 - i,
    {
        if a[i] != b[i] {
            return false;
        }
        i = i + 1;
    }
    assert(*a =~= *b);
    true
}

/// A block header with its hash.
#[derive(Clone, Copy, Debug, PartialEq, Eq)]
pub struct SealedHeader {
    pub number: u64,
    pub hash: B256,
    pub parent_hash: B256,
    pub state_root: B256,
}

/// A block that the earlier stages have downloaded and executed, with the state
/// root that execution computed.
#[derive(Clone, Copy, Debug, PartialEq, Eq)]
pub struct ExecutedBlock {
    pub header: SealedHeader,
    pub computed_state_root: B256,
}

/// The named stages of the pipeline.
#[derive(Clone, Copy, Debug, PartialEq, Eq)]
pub enum StageId {
    Headers,
    Bodies,
    SenderRecovery,
    Execution,
    MerkleValidation,
    Indexing,
}

/// How a stage failed.
#[derive(Clone, Copy, Debug, PartialEq, Eq)]
pub enum StageError {
    /// The data is invalid: the range is rejected.
    Validation,
    /// A transient I/O failure: the stage is tried again.
    Transient,
    /// Anything else: the driver stops.
    Fatal,
}

/// What the driver does after a stage failed.
#[derive(Clone, Copy, Debug, PartialEq, Eq)]
pub enum Recovery {
    /// Run the stage again after `delay_ms` milliseconds.
    Retry { delay_ms: u64 },
    /// Reject the range and unwind to the checkpoint.
    Unwind { to: u64 },
    /// Surface the failure to the driver.
    Fatal,
}

/// Why a batch was refused.
#[derive(Clone, Copy, Debug, PartialEq, Eq)]
pub enum PipelineError {
    /// The block with this number does not extend the chain, or its state root
    /// differs from the one execution computed.
    InvalidBlock { number: u64 },
}

/// Base delay of the first retry, in milliseconds.
pub const RETRY_BASE_DELAY_MS: u64 = 100;

/// Retries before a transient failure is treated as fatal.
pub const MAX_RETRIES: u32 = 10;

/// Whether `b` extends a chain whose tip is `tip` and passed state-root validation.
pub open spec fn extends(tip: SealedHeader, b: ExecutedBlock) -> bool {
    &&& tip.number < u64::MAX
    &&& b.header.number == tip.number + 1
    &&& b.header.parent_hash == tip.hash
    &&& b.header.state_root == b.computed_state_root
}

/// The tip after the first `n` blocks of a batch on top of `tip`.
pub open spec fn tip_after(tip: SealedHeader, batch: Seq<ExecutedBlock>, n: int) -> SealedHeader {
    if n <= 0 {
        tip
    } else {
        batch[n - 1].header
    }
}

/// Whether every block of the batch extends the one before it, the first
/// extending `tip`.
#[verifier::opaque]
pub open spec fn batch_valid(tip: SealedHeader, batch: Seq<ExecutedBlock>) -> bool {
    forall|i: int| 0 <= i < batch.len() ==> extends(#[trigger] tip_after(tip, batch, i), batch[i])
}

/// The headers of a batch.
pub open spec fn headers_of(batch: Seq<ExecutedBlock>) -> Seq<SealedHeader> {
    batch.map_values(|b: ExecutedBlock| b.header)
}

/// The blocks of `chain` above height `k` as a batch to run again, each
/// executing to the state root its header records.
pub open spec fn blocks_after(chain: Seq<SealedHeader>, k: int) -> Seq<ExecutedBlock> {
    chain.subrange(k + 1, chain.len() as int).map_values(
        |h: SealedHeader| ExecutedBlock { header: h, computed_state_root: h.state_root },
    )
}

/// A chain from genesis (height 0): block `i` has number `i` and links to block
/// `i - 1`.
#[verifier::opaque]
pub open spec fn chain_wf(chain: Seq<SealedHeader>) -> bool {
    &&& chain.len() >= 1
    &&& forall|i: int| 0 <= i < chain.len() ==> (#[trigger] chain[i]).number == i
    &&& forall|i: int| 1 <= i < chain.len() ==> (#[trigger] chain[i]).parent_hash == chain[i - 1].hash
}

/// The delay before retry number `attempt`: doubles from the base, capped at 2^10 times it.
pub open spec fn backoff_delay_spec(attempt: u32) -> u64 {
    let e: nat = if attempt < 10 { attempt as nat } else { 10 };
    (RETRY_BASE_DELAY_MS * vstd::arithmetic::power2::pow2(e)) as u64
}

/// The block import pipeline.
#[derive(Debug)]
pub struct Pipeline {
    /// The stages, in the order each batch runs them.
    pub stages: Vec<StageId>,
    /// The committed canonical chain, genesis first.
    pub chain: Vec<SealedHeader>,
    /// The height the pipeline syncs to, if one is set.
    pub target: Option<u64>,
}

impl Pipeline {
    pub open spec fn wf(&self) -> bool {
        chain_wf(self.chain@)
    }

    /// The height up to which blocks are committed.
    pub open spec fn checkpoint_spec(&self) -> int {
        self.chain@.len() - 1
    }

    /// The default stages, in order.
    pub fn default_stages() -> (r: Vec<StageId>)
        ensures
            r@ == seq![
                StageId::Headers,
                StageId::Bodies,
                StageId::SenderRecovery,
                StageId::Execution,
                StageId::MerkleValidation,
                StageId::Indexing,
            ],
    {
        vec![
            StageId::Headers,
            StageId::Bodies,
            StageId::SenderRecovery,
            StageId::Execution,
            StageId::MerkleValidation,
            StageId::Indexing,
        ]
    }

    /// A pipeline whose chain holds only `genesis`.
    pub fn new(genesis: SealedHeader, stages: Vec<StageId>) -> (r: Pipeline)
        requires
            genesis.number == 0,
        ensures
            r.wf(),
            r.chain@ == seq![genesis],
            r.stages@ == stages@,
            r.target is None,
            r.checkpoint_spec() == 0,
    {
        proof {
            reveal(chain_wf);
        }
        let mut chain: Vec<SealedHeader> = Vec::new();
        chain.push(genesis);
        Pipeline { stages, chain, target: None }
    }

    /// The height up to which blocks are committed.
    pub fn checkpoint(&self) -> (r: u64)
        requires
            self.wf(),
        ensures
            r == self.checkpoint_spec(),
    {
        proof {
            reveal(chain_wf);
        }
        self.chain[self.chain.len() - 1].number
    }

    /// The committed tip.
    pub fn tip(&self) -> (r: SealedHeader)
        requires
            self.wf(),
        ensures
            r == self.chain@.last(),
    {
        proof {
            reveal(chain_wf);
        }
        self.chain[self.chain.len() - 1]
    }

    /// The state root committed at height `k`, if the chain reaches it.
    pub fn state_root_at(&self, k: u64) -> (r: Option<B256>)
        requires
            self.wf(),
        ensures
            k < self.chain@.len() <==> r is Some,
            r matches Some(root) ==> root == self.chain@[k as int].state_root,
    {
        proof {
            reveal(chain_wf);
        }
        if k < self.chain.len() as u64 {
            Some(self.chain[k as usize].state_root)
        } else {
            None
        }
    }

    /// Sets the height to sync to.
    pub fn set_target(&mut self, target: u64)
        ensures
            final(self).target == Some(target),
            final(self).chain == old(self).chain,
            final(self).stages == old(self).stages,
    {
        self.target = Some(target);
    }

    /// Whether the checkpoint has reached the target.
    pub fn reached_target(&self) -> (r: bool)
        requires
            self.wf(),
        ensures
            r == (self.target matches Some(t) && self.checkpoint_spec() >= t),
    {
        match self.target {
            Some(t) => self.checkpoint() >= t,
            None => false,
        }
    }

    /// Commits a batch whose blocks passed every stage.
    ///
    /// The batch is all or nothing: when a block does not extend the chain or its
    /// state root differs from the computed one, nothing is committed and the
    /// checkpoint stays where it was.
    pub fn run_batch(&mut self, batch: &Vec<ExecutedBlock>) -> (r: Result<u64, PipelineError>)
        requires
            old(self).wf(),
        ensures
            final(self).wf(),
            final(self).stages == old(self).stages,
            final(self).target == old(self).target,
            r is Ok <==> batch_valid(old(self).chain@.last(), batch@),
            r matches Ok(c) ==> c == final(self).checkpoint_spec()
                && final(self).chain@ == old(self).chain@ + headers_of(batch@),
            r matches Err(PipelineError::InvalidBlock { number }) ==> {
                &&& final(self).chain@ == old(self).chain@
                &&& exists|i: int|
                    0 <= i < batch@.len() && batch@[i].header.number == number && !extends(
                        #[trigger] tip_after(old(self).chain@.last(), batch@, i),
                        batch@[i],
                    )
            },
    {
        let ghost old_chain = self.chain@;
        proof {
            reveal(chain_wf);
        }
        let tip0 = self.tip();
        // validate the whole range before committing any of it
        let mut tip = tip0;
        let mut i: usize = 0;
        while i < batch.len()
            invariant
                self.chain@ == old_chain,
                chain_wf(old_chain),
                tip0 == old_chain.last(),
                i <= batch@.len(),
                tip == tip_after(tip0, batch@, i as int),
                forall|j: int| 0 <= j < i ==> extends(#[trigger] tip_after(tip0, batch@, j), batch@[j]),
            decreases batch@.len() - i,
        {
            let b = batch[i];
            proof {
                reveal(batch_valid);
            }
            if !(tip.number < u64::MAX && b.header.number == tip.number + 1
                && hash_eq(&b.header.parent_hash, &tip.hash)
                && hash_eq(&b.header.state_root, &b.computed_state_root)) {
                assert(!extends(tip_after(tip0, batch@, i as int), batch@[i as int]));
                return Err(PipelineError::InvalidBlock { number: b.header.number });
            }
            tip = b.header;
            i = i + 1;
        }
        assert(batch_valid(tip0, batch@)) by {
            reveal(batch_valid);
        }
        // commit
        let mut k: usize = 0;
        while k < batch.len()
            invariant
                chain_wf(old_chain),
                old_chain.len() >= 1,
                self.chain@.len() >= 1,
                tip0 == old_chain.last(),
                batch_valid(tip0, batch@),
                k <= batch@.len(),
                self.chain@ == old_chain + headers_of(batch@).subrange(0, k as int),
                self.chain@.last() == tip_after(tip0, batch@, k as int),
                chain_wf(self.chain@),
                self.stages == old(self).stages,
                self.target == old(self).target,
            decreases batch@.len() - k,
        {
            let ghost before = self.chain@;
            proof {
                reveal(batch_valid);
                assert(extends(tip_after(tip0, batch@, k as int), batch@[k as int]));
                lemma_push_wf(before, batch@[k as int].header);
            }
            self.chain.push(batch[k].header);
            proof {
                lemma_commit_seq(old_chain, batch@, k as int);
            }
            k = k + 1;
        }
        assert(headers_of(batch@).subrange(0, k as int) =~= headers_of(batch@));
        Ok(self.checkpoint())
    }

    /// Reverts the chain to height `to`.
    pub fn unwind(&mut self, to: u64)
        requires
            old(self).wf(),
            to <= old(self).checkpoint_spec(),
        ensures
            final(self).wf(),
            final(self).chain@ == old(self).chain@.subrange(0, to + 1),
            final(self).checkpoint_spec() == to,
            final(self).stages == old(self).stages,
            final(self).target == old(self).target,
    {
        proof {
            reveal(chain_wf);
        }
        while (self.chain.len() - 1) as u64 > to
            invariant
                1 <= self.chain@.len() <= old(self).chain@.len(),
                to + 1 <= self.chain@.len(),
                self.chain@ == old(self).chain@.subrange(0, self.chain@.len() as int),
                self.stages == old(self).stages,
                self.target == old(self).target,
            decreases self.chain@.len(),
        {
            self.chain.pop();
        }
    }

    /// The decision after stage `stage` failed with `err` on its `attempt`-th try
    /// (counting from 0): transient failures are retried with exponential backoff
    /// until `MAX_RETRIES`, validation failures unwind to the checkpoint, and
    /// everything else is fatal.
    pub fn on_stage_error(&self, err: StageError, attempt: u32) -> (r: Recovery)
        requires
            self.wf(),
        ensures
            r == (match err {
                StageError::Validation => Recovery::Unwind { to: self.checkpoint_spec() as u64 },
                StageError::Transient => if attempt < MAX_RETRIES {
                    Recovery::Retry { delay_ms: backoff_delay_spec(attempt) }
                } else {
                    Recovery::Fatal
                },
                StageError::Fatal => Recovery::Fatal,
            }),
    {
        match err {
            StageError::Validation => Recovery::Unwind { to: self.checkpoint() },
            StageError::Transient => {
                if attempt < MAX_RETRIES {
                    Recovery::Retry { delay_ms: backoff_delay(attempt) }
                } else {
                    Recovery::Fatal
                }
            },
            StageError::Fatal => Recovery::Fatal,
        }
    }
}

/// Committing block `k` of a batch appends its header.
proof fn lemma_commit_seq(chain: Seq<SealedHeader>, batch: Seq<ExecutedBlock>, k: int)
    requires
        0 <= k < batch.len(),
    ensures
        (chain + headers_of(batch).subrange(0, k)).push(batch[k].header) == chain + headers_of(
            batch,
        ).subrange(0, k + 1),
{
    assert((chain + headers_of(batch).subrange(0, k)).push(batch[k].header) =~= chain
        + headers_of(batch).subrange(0, k + 1));
}

/// Appending a header that links to the tip keeps a chain well formed.
proof fn lemma_push_wf(c: Seq<SealedHeader>, h: SealedHeader)
    requires
        chain_wf(c),
        c.last().number < u64::MAX,
        h.number == c.last().number + 1,
        h.parent_hash == c.last().hash,
    ensures
        chain_wf(c.push(h)),
{
    reveal(chain_wf);
    assert(c[c.len() - 1].number == c.len() - 1);
    let c2 = c.push(h);
    assert forall|i: int| 0 <= i < c2.len() implies (#[trigger] c2[i]).number == i by {
        if i < c.len() {
            assert(c2[i] == c[i]);
        }
    }
    assert forall|i: int| 1 <= i < c2.len() implies (#[trigger] c2[i]).parent_hash == c2[i
        - 1].hash by {
        if i < c.len() {
            assert(c2[i] == c[i]);
        }
    }
}

/// Committing the first `k` blocks of a valid batch keeps the chain well formed,
/// with the `k`-th block on top.
proof fn lemma_batch_prefix_wf(chain: Seq<SealedHeader>, batch: Seq<ExecutedBlock>, k: int)
    requires
        chain_wf(chain),
        batch_valid(chain.last(), batch),
        0 <= k <= batch.len(),
    ensures
        chain_wf(chain + headers_of(batch).subrange(0, k)),
        (chain + headers_of(batch).subrange(0, k)).last() == tip_after(chain.last(), batch, k),
    decreases k,
{
    reveal(chain_wf);
    if k == 0 {
        assert(chain + headers_of(batch).subrange(0, 0) =~= chain);
    } else {
        lemma_batch_prefix_wf(chain, batch, k - 1);
        reveal(batch_valid);
        assert(extends(tip_after(chain.last(), batch, k - 1), batch[k - 1]));
        lemma_push_wf(chain + headers_of(batch).subrange(0, k - 1), batch[k - 1].header);
        lemma_commit_seq(chain, batch, k - 1);
    }
}

/// Appending a valid batch of `n` blocks to a chain that holds only genesis
/// moves the checkpoint to `n`, and the committed heights strictly increase
/// along the chain.
pub proof fn lemma_checkpoint_counts_blocks(genesis: SealedHeader, batch: Seq<ExecutedBlock>)
    requires
        genesis.number == 0,
        batch_valid(genesis, batch),
    ensures
        ({
            let c = seq![genesis] + headers_of(batch);
            &&& chain_wf(c)
            &&& c.len() - 1 == batch.len()
            &&& c.last().number == batch.len()
            &&& forall|i: int, j: int| 0 <= i < j < c.len() ==> c[i].number < c[j].number
        }),
{
    let g = seq![genesis];
    assert(chain_wf(g)) by {
        reveal(chain_wf);
    }
    assert(g.last() == genesis);
    lemma_batch_prefix_wf(g, batch, batch.len() as int);
    assert(headers_of(batch).subrange(0, batch.len() as int) =~= headers_of(batch));
    let c = g + headers_of(batch);
    reveal(chain_wf);
    assert(c[c.len() - 1].number == c.len() - 1);
}

/// Unwinding a chain to height `k` and running its own blocks above `k` again
/// is accepted and gives back the same chain: the state root at `k`, and at
/// every other height, is the one of the first run.
pub proof fn lemma_unwind_rerun(chain: Seq<SealedHeader>, k: int)
    requires
        chain_wf(chain),
        0 <= k < chain.len(),
    ensures
        chain.subrange(0, k + 1)[k].state_root == chain[k].state_root,
        batch_valid(chain.subrange(0, k + 1).last(), blocks_after(chain, k)),
        chain.subrange(0, k + 1) + headers_of(blocks_after(chain, k)) == chain,
{
    reveal(chain_wf);
    let base = chain.subrange(0, k + 1);
    let b = blocks_after(chain, k);
    assert(chain[chain.len() - 1].number == chain.len() - 1);
    assert forall|i: int| 0 <= i < b.len() implies extends(
        #[trigger] tip_after(base.last(), b, i),
        b[i],
    ) by {
        assert(b[i].header == chain[k + 1 + i]);
        if i == 0 {
            assert(tip_after(base.last(), b, i) == chain[k]);
        } else {
            assert(b[i - 1].header == chain[k + i]);
        }
        assert(chain[k + i].number == k + i);
        assert(chain[k + 1 + i].number == k + 1 + i);
    }
    assert(batch_valid(base.last(), b)) by {
        reveal(batch_valid);
    }
    assert(base + headers_of(b) =~= chain);
}

/// The delay before retry number `attempt`.
pub fn backoff_delay(attempt: u32) -> (r: u64)
    ensures
        r == backoff_delay_spec(attempt),
{
    let e: u32 = if attempt < 10 { attempt } else { 10 };
    let mut d: u64 = RETRY_BASE_DELAY_MS;
    let mut i: u32 = 0;
    proof {
        vstd::arithmetic::power2::lemma2_to64();
    }
    while i < e
        invariant
            i <= e <= 10,
            d == RETRY_BASE_DELAY_MS * vstd::arithmetic::power2::pow2(i as nat),
        decreases e - i,
    {
        proof {
            vstd::arithmetic::power2::lemma_pow2_unfold((i + 1) as nat);
            vstd::arithmetic::power2::lemma_pow2_strictly_increases(i as nat, 10);
            vstd::arithmetic::power2::lemma2_to64();
        }
        d = d * 2;
        i = i + 1;
    }
    d
}

} // verus!
