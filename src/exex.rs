//! The execution extension manager: hands every committed or reverted chain
//! segment, in commit order, to each registered extension at its own pace, and
//! tracks how far each extension has finished.

use vstd::prelude::*;

verus! {

/// A chain segment that was committed or reverted, by its block range.
#[derive(Clone, Copy, Debug, PartialEq, Eq)]
pub enum ExExNotification {
    ChainCommitted { first: u64, last: u64 },
    ChainReverted { first: u64, last: u64 },
}

/// What a failed extension means for the node.
#[derive(Clone, Copy, Debug, PartialEq, Eq)]
pub enum FailurePolicy {
    /// The failure stops the node.
    Fatal,
    /// The failure is logged; the other extensions go on.
    Isolate,
}

/// What the node does after an extension failed.
#[derive(Clone, Copy, Debug, PartialEq, Eq)]
pub enum FailureAction {
    ShutdownNode,
    Continue,
}

/// How far all extensions have finished.
#[derive(Clone, Copy, Debug, PartialEq, Eq)]
pub enum FinishedExExHeight {
    /// No extension is registered.
    NoExExs,
    /// Some extension has not finished any height yet.
    NotReady,
    /// The lowest height that every extension has finished.
    Height(u64),
}

/// Why a segment was not accepted.
#[derive(Clone, Copy, Debug, PartialEq, Eq)]
pub enum ExExError {
    /// An extension's buffer is full: the commit path waits for it.
    BufferFull,
    /// No extension has this id.
    UnknownExEx,
}

/// The progress of one extension.
pub struct ExExState {
    /// Index in the log of the first segment this extension gets.
    pub start: usize,
    /// Index in the log of the next segment this extension gets.
    pub cursor: usize,
    /// The highest height the extension reported finished.
    pub finished_height: Option<u64>,
    /// Whether the extension failed and was isolated.
    pub failed: bool,
    /// The segments handed to this extension so far, in order.
    pub delivered: Ghost<Seq<ExExNotification>>,
}

/// The minimum of the finished heights of the live extensions among the first `n`.
pub open spec fn finished_spec(exts: Seq<ExExState>, n: int) -> FinishedExExHeight
    decreases n,
{
    if n <= 0 {
        FinishedExExHeight::NoExExs
    } else {
        let rest = finished_spec(exts, n - 1);
        let e = exts[n - 1];
        if e.failed {
            rest
        } else {
            match (e.finished_height, rest) {
                (None, _) => FinishedExExHeight::NotReady,
                (_, FinishedExExHeight::NotReady) => FinishedExExHeight::NotReady,
                (Some(h), FinishedExExHeight::NoExExs) => FinishedExExHeight::Height(h),
                (Some(h), FinishedExExHeight::Height(g)) => FinishedExExHeight::Height(
                    if h < g { h } else { g },
                ),
            }
        }
    }
}

/// The extension manager.
pub struct ExExManager {
    /// Every segment since the manager started, in commit order.
    log: Vec<ExExNotification>,
    extensions: Vec<ExExState>,
    /// How many undelivered segments an extension may have.
    buffer_capacity: usize,
}

impl ExExManager {
    pub closed spec fn log_spec(&self) -> Seq<ExExNotification> {
        self.log@
    }

    pub closed spec fn extensions_spec(&self) -> Seq<ExExState> {
        self.extensions@
    }

    pub closed spec fn capacity_spec(&self) -> nat {
        self.buffer_capacity as nat
    }

    /// Whether an extension still gets segments.
    pub open spec fn is_live(&self, id: int) -> bool {
        0 <= id < self.extensions_spec().len() && !self.extensions_spec()[id].failed
    }

    /// The segments handed to extension `id` so far.
    pub open spec fn delivered(&self, id: int) -> Seq<ExExNotification> {
        self.extensions_spec()[id].delivered@
    }

    pub closed spec fn wf(&self) -> bool {
        forall|i: int|
            0 <= i < self.extensions@.len() ==> {
                let e = #[trigger] self.extensions@[i];
                &&& e.start <= e.cursor <= self.log@.len()
                &&& e.delivered@ == self.log@.subrange(e.start as int, e.cursor as int)
            }
    }

    /// A manager with no extensions, whose buffers hold `buffer_capacity` segments each.
    pub fn new(buffer_capacity: usize) -> (r: ExExManager)
        ensures
            r.wf(),
            r.log_spec().len() == 0,
            r.extensions_spec().len() == 0,
            r.capacity_spec() == buffer_capacity,
    {
        ExExManager { log: Vec::new(), extensions: Vec::new(), buffer_capacity }
    }

    /// The number of registered extensions.
    pub fn num_extensions(&self) -> (r: usize)
        ensures
            r == self.extensions_spec().len(),
    {
        self.extensions.len()
    }

    /// Registers an extension; it gets every segment committed from now on.
    pub fn register(&mut self) -> (id: usize)
        requires
            old(self).wf(),
        ensures
            final(self).wf(),
            id == old(self).extensions_spec().len(),
            final(self).log_spec() == old(self).log_spec(),
            final(self).capacity_spec() == old(self).capacity_spec(),
            final(self).extensions_spec().len() == id + 1,
            forall|i: int| 0 <= i < id ==> #[trigger] final(self).extensions_spec()[i] == old(self).extensions_spec()[i],
            final(self).is_live(id as int),
            final(self).delivered(id as int) == Seq::<ExExNotification>::empty(),
            final(self).extensions_spec()[id as int].finished_height is None,
            final(self).extensions_spec()[id as int].start == old(self).log_spec().len(),
            final(self).extensions_spec()[id as int].cursor == old(self).log_spec().len(),
    {
        let id = self.extensions.len();
        let at = self.log.len();
        self.extensions.push(
            ExExState {
                start: at,
                cursor: at,
                finished_height: None,
                failed: false,
                delivered: Ghost(Seq::empty()),
            },
        );
        proof {
            assert(self.log@.subrange(at as int, at as int) =~= Seq::<ExExNotification>::empty());
        }
        id
    }

    /// Whether every live extension has room for one more segment.
    pub fn has_capacity(&self) -> (r: bool)
        requires
            self.wf(),
        ensures
            r == forall|i: int|
                #![trigger self.extensions_spec()[i]]
                self.is_live(i) ==> self.log_spec().len() - self.extensions_spec()[i].cursor
                    < self.capacity_spec(),
    {
        let mut i: usize = 0;
        while i < self.extensions.len()
            invariant
                self.wf(),
                i <= self.extensions@.len(),
                forall|j: int|
                    #![trigger self.extensions_spec()[j]]
                    0 <= j < i && self.is_live(j) ==> self.log_spec().len()
                        - self.extensions_spec()[j].cursor < self.capacity_spec(),
            decreases self.extensions@.len() - i,
        {
            let e = &self.extensions[i];
            if !e.failed && self.log.len() - e.cursor >= self.buffer_capacity {
                return false;
            }
            i = i + 1;
        }
        true
    }

    /// Appends a committed or reverted segment for every extension, unless a
    /// live extension's buffer is full. No extension's progress changes.
    pub fn notify(&mut self, n: ExExNotification) -> (r: Result<(), ExExError>)
        requires
            old(self).wf(),
            old(self).log_spec().len() < usize::MAX,
        ensures
            final(self).wf(),
            final(self).capacity_spec() == old(self).capacity_spec(),
            final(self).extensions_spec() == old(self).extensions_spec(),
            r is Ok <==> forall|i: int|
                #![trigger old(self).extensions_spec()[i]]
                old(self).is_live(i) ==> old(self).log_spec().len()
                    - old(self).extensions_spec()[i].cursor < old(self).capacity_spec(),
            r is Ok ==> final(self).log_spec() == old(self).log_spec().push(n),
            r is Err ==> r == Err::<(), ExExError>(ExExError::BufferFull) && final(self).log_spec() == old(self).log_spec(),
    {
        if !self.has_capacity() {
            return Err(ExExError::BufferFull);
        }
        let ghost old_log = self.log@;
        self.log.push(n);
        proof {
            assert forall|i: int| 0 <= i < self.extensions@.len() implies {
                let e = #[trigger] self.extensions@[i];
                &&& e.start <= e.cursor <= self.log@.len()
                &&& e.delivered@ == self.log@.subrange(e.start as int, e.cursor as int)
            } by {
                let e = self.extensions@[i];
                assert(self.log@.subrange(e.start as int, e.cursor as int) =~= old_log.subrange(
                    e.start as int,
                    e.cursor as int,
                ));
            }
        }
        Ok(())
    }

    /// Hands extension `id` its next segment, if one is waiting. No other
    /// extension's progress changes.
    pub fn next_for(&mut self, id: usize) -> (r: Option<ExExNotification>)
        requires
            old(self).wf(),
        ensures
            final(self).wf(),
            final(self).log_spec() == old(self).log_spec(),
            final(self).capacity_spec() == old(self).capacity_spec(),
            final(self).extensions_spec().len() == old(self).extensions_spec().len(),
            forall|i: int| 0 <= i < old(self).extensions_spec().len() && i != id ==>
                #[trigger] final(self).extensions_spec()[i] == old(self).extensions_spec()[i],
            r is Some <==> old(self).is_live(id as int) && old(self).extensions_spec()[id as int].cursor
                < old(self).log_spec().len(),
            r matches Some(n) ==> {
                let e = old(self).extensions_spec()[id as int];
                let e2 = final(self).extensions_spec()[id as int];
                &&& n == old(self).log_spec()[e.cursor as int]
                &&& e2.cursor == e.cursor + 1
                &&& e2.start == e.start
                &&& e2.finished_height == e.finished_height
                &&& !e2.failed
                &&& final(self).delivered(id as int) == old(self).delivered(id as int).push(n)
            },
            r is None ==> final(self).extensions_spec() == old(self).extensions_spec(),
    {
        if id >= self.extensions.len() {
            return None;
        }
        if self.extensions[id].failed || self.extensions[id].cursor >= self.log.len() {
            return None;
        }
        let c = self.extensions[id].cursor;
        let n = self.log[c];
        let old_e = &self.extensions[id];
        let ghost old_delivered = old_e.delivered@;
        let e = ExExState {
            start: old_e.start,
            cursor: c + 1,
            finished_height: old_e.finished_height,
            failed: false,
            delivered: Ghost(old_delivered.push(n)),
        };
        proof {
            assert(self.log@.subrange(e.start as int, c + 1) =~= self.log@.subrange(
                e.start as int,
                c as int,
            ).push(n));
        }
        self.extensions.set(id, e);
        Some(n)
    }

    /// Records that extension `id` finished up to `height`; the watermark never
    /// moves down.
    pub fn on_finished_height(&mut self, id: usize, height: u64) -> (r: Result<(), ExExError>)
        requires
            old(self).wf(),
        ensures
            final(self).wf(),
            final(self).log_spec() == old(self).log_spec(),
            final(self).capacity_spec() == old(self).capacity_spec(),
            final(self).extensions_spec().len() == old(self).extensions_spec().len(),
            r is Ok <==> id < old(self).extensions_spec().len(),
            r is Err ==> final(self).extensions_spec() == old(self).extensions_spec(),
            r is Ok ==> {
                let e = old(self).extensions_spec()[id as int];
                let e2 = final(self).extensions_spec()[id as int];
                &&& e2.finished_height == Some(match e.finished_height {
                    Some(h) => if h > height { h } else { height },
                    None => height,
                })
                &&& e2.cursor == e.cursor && e2.start == e.start && e2.failed == e.failed
                &&& e2.delivered == e.delivered
            },
            forall|i: int| 0 <= i < old(self).extensions_spec().len() && i != id ==>
                #[trigger] final(self).extensions_spec()[i] == old(self).extensions_spec()[i],
    {
        if id >= self.extensions.len() {
            return Err(ExExError::UnknownExEx);
        }
        let old_e = &self.extensions[id];
        let h = match old_e.finished_height {
            Some(h) => if h > height { h } else { height },
            None => height,
        };
        let e = ExExState {
            start: old_e.start,
            cursor: old_e.cursor,
            finished_height: Some(h),
            failed: old_e.failed,
            delivered: Ghost(old_e.delivered@),
        };
        self.extensions.set(id, e);
        Ok(())
    }

    /// Handles the failure of extension `id` under `policy`: under `Isolate` the
    /// extension stops getting segments and no longer holds the others back.
    pub fn on_failure(&mut self, id: usize, policy: FailurePolicy) -> (r: FailureAction)
        requires
            old(self).wf(),
        ensures
            final(self).wf(),
            final(self).log_spec() == old(self).log_spec(),
            final(self).capacity_spec() == old(self).capacity_spec(),
            final(self).extensions_spec().len() == old(self).extensions_spec().len(),
            r == (match policy {
                FailurePolicy::Fatal => FailureAction::ShutdownNode,
                FailurePolicy::Isolate => FailureAction::Continue,
            }),
            policy == FailurePolicy::Isolate && id < old(self).extensions_spec().len() ==> !final(self).is_live(id as int),
            forall|i: int| 0 <= i < old(self).extensions_spec().len() && i != id ==>
                #[trigger] final(self).extensions_spec()[i] == old(self).extensions_spec()[i],
            policy == FailurePolicy::Fatal || id >= old(self).extensions_spec().len() ==> final(self).extensions_spec() == old(self).extensions_spec(),
    {
        match policy {
            FailurePolicy::Fatal => FailureAction::ShutdownNode,
            FailurePolicy::Isolate => {
                if id < self.extensions.len() {
                    let old_e = &self.extensions[id];
                    let e = ExExState {
                        start: old_e.start,
                        cursor: old_e.cursor,
                        finished_height: old_e.finished_height,
                        failed: true,
                        delivered: Ghost(old_e.delivered@),
                    };
                    self.extensions.set(id, e);
                }
                FailureAction::Continue
            },
        }
    }

    /// The lowest height that every live extension has finished.
    pub fn finished_height(&self) -> (r: FinishedExExHeight)
        ensures
            r == finished_spec(self.extensions_spec(), self.extensions_spec().len() as int),
    {
        let mut acc = FinishedExExHeight::NoExExs;
        let mut i: usize = 0;
        while i < self.extensions.len()
            invariant
                i <= self.extensions@.len(),
                acc == finished_spec(self.extensions@, i as int),
            decreases self.extensions@.len() - i,
        {
            let e = &self.extensions[i];
            if !e.failed {
                acc = match (e.finished_height, acc) {
                    (None, _) => FinishedExExHeight::NotReady,
                    (_, FinishedExExHeight::NotReady) => FinishedExExHeight::NotReady,
                    (Some(h), FinishedExExHeight::NoExExs) => FinishedExExHeight::Height(h),
                    (Some(h), FinishedExExHeight::Height(g)) => FinishedExExHeight::Height(
                        if h < g { h } else { g },
                    ),
                };
            }
            i = i + 1;
        }
        acc
    }

    /// Every extension has been handed each segment committed since it
    /// registered exactly once and in commit order, however far the others
    /// have got: what it got is the log's run from its start to its cursor,
    /// and all of that run once it has caught up.
    pub proof fn lemma_each_extension_sees_log_in_order(&self, id: int)
        requires
            self.wf(),
            0 <= id < self.extensions_spec().len(),
        ensures
            ({
                let e = self.extensions_spec()[id];
                &&& self.delivered(id) == self.log_spec().subrange(e.start as int, e.cursor as int)
                &&& e.cursor == self.log_spec().len() ==> self.delivered(id) == self.log_spec().subrange(
                    e.start as int,
                    self.log_spec().len() as int,
                )
            }),
    {
        let e = self.extensions@[id];
        assert(e.start <= e.cursor <= self.log@.len());
    }
}

/// The aggregate finished height is a lower bound: it is at most the finished
/// height of every live extension.
pub proof fn lemma_finished_height_is_minimum(exts: Seq<ExExState>, n: int, i: int)
    requires
        0 <= i < n <= exts.len(),
        !exts[i].failed,
        finished_spec(exts, n) matches FinishedExExHeight::Height(_),
    ensures
        exts[i].finished_height matches Some(h) && finished_spec(exts, n)->Height_0 <= h,
    decreases n,
{
    if i < n - 1 {
        let e = exts[n - 1];
        if !e.failed {
            assert(finished_spec(exts, n - 1) matches FinishedExExHeight::Height(_)) by {
                if finished_spec(exts, n - 1) is NoExExs {
                    lemma_finished_no_exexs(exts, n - 1, i);
                }
            }
        }
        lemma_finished_height_is_minimum(exts, n - 1, i);
    }
}

/// Among the first `n` extensions none is live when the aggregate says so.
proof fn lemma_finished_no_exexs(exts: Seq<ExExState>, n: int, i: int)
    requires
        0 <= i < n <= exts.len(),
        !exts[i].failed,
    ensures
        !(finished_spec(exts, n) is NoExExs),
    decreases n,
{
    if i < n - 1 {
        lemma_finished_no_exexs(exts, n - 1, i);
    }
}

} // verus!
