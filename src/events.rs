//! The event hub: merges the event streams of the node's components (network,
//! engine, pipeline, pruner, health checks) into one. Each source's events come
//! out in the order that source produced them; sources are served in turn, and
//! the hub ends only when every source has ended.

use vstd::prelude::*;

verus! {

/// One source of events.
pub struct EventSource<E> {
    /// Events produced and not yet handed out, oldest first.
    pub pending: Vec<E>,
    /// Whether the source has ended.
    pub closed: bool,
    /// Every event the source produced, in order.
    pub produced: Ghost<Seq<E>>,
    /// The events handed out, in order.
    pub emitted: Ghost<Seq<E>>,
}

/// The result of polling the hub.
#[derive(Debug, PartialEq, Eq)]
pub enum HubPoll<E> {
    /// An event of source `source`.
    Ready { source: usize, event: E },
    /// No event now; some source may still produce one.
    Pending,
    /// Every source has ended and every event was handed out.
    Terminated,
}

/// Why the hub refused a call.
#[derive(Clone, Copy, Debug, PartialEq, Eq)]
pub enum HubError {
    /// No source has this id.
    UnknownSource,
    /// The source has ended.
    SourceClosed,
}

/// The event hub.
pub struct EventHub<E> {
    sources: Vec<EventSource<E>>,
    /// The source served first on the next poll.
    next: usize,
}

impl<E> EventHub<E> {
    pub closed spec fn sources_spec(&self) -> Seq<EventSource<E>> {
        self.sources@
    }

    /// Every event source `s` produced.
    pub open spec fn produced(&self, s: int) -> Seq<E> {
        self.sources_spec()[s].produced@
    }

    /// The events of source `s` handed out so far.
    pub open spec fn emitted(&self, s: int) -> Seq<E> {
        self.sources_spec()[s].emitted@
    }

    pub open spec fn pending(&self, s: int) -> Seq<E> {
        self.sources_spec()[s].pending@
    }

    pub closed spec fn wf(&self) -> bool {
        &&& self.next == 0 || self.next < self.sources@.len()
        &&& forall|s: int|
            0 <= s < self.sources@.len() ==> (#[trigger] self.sources@[s]).produced@
                == self.sources@[s].emitted@ + self.sources@[s].pending@
    }

    /// A hub without sources.
    pub fn new() -> (r: EventHub<E>)
        ensures
            r.wf(),
            r.sources_spec().len() == 0,
    {
        EventHub { sources: Vec::new(), next: 0 }
    }

    /// Adds a source; its id is returned.
    pub fn add_source(&mut self) -> (id: usize)
        requires
            old(self).wf(),
        ensures
            final(self).wf(),
            id == old(self).sources_spec().len(),
            final(self).sources_spec().len() == id + 1,
            forall|s: int| 0 <= s < id ==> #[trigger] final(self).sources_spec()[s] == old(self).sources_spec()[s],
            final(self).produced(id as int) == Seq::<E>::empty(),
            final(self).emitted(id as int) == Seq::<E>::empty(),
            final(self).pending(id as int) == Seq::<E>::empty(),
            !final(self).sources_spec()[id as int].closed,
    {
        let id = self.sources.len();
        self.sources.push(
            EventSource {
                pending: Vec::new(),
                closed: false,
                produced: Ghost(Seq::empty()),
                emitted: Ghost(Seq::empty()),
            },
        );
        proof {
            assert forall|s: int| 0 <= s < self.sources@.len() implies (#[trigger] self.sources@[s]).produced@
                == self.sources@[s].emitted@ + self.sources@[s].pending@ by {
                if s < id {
                    assert(self.sources@[s] == old(self).sources@[s]);
                } else {
                    assert(Seq::<E>::empty() + Seq::<E>::empty() =~= Seq::<E>::empty());
                }
            }
        }
        id
    }

    /// Source `id` produced `event`.
    pub fn push(&mut self, id: usize, event: E) -> (r: Result<(), HubError>)
        requires
            old(self).wf(),
        ensures
            final(self).wf(),
            final(self).sources_spec().len() == old(self).sources_spec().len(),
            id >= old(self).sources_spec().len() ==> r == Err::<(), HubError>(HubError::UnknownSource),
            id < old(self).sources_spec().len() && old(self).sources_spec()[id as int].closed ==> r
                == Err::<(), HubError>(HubError::SourceClosed),
            r is Err ==> final(self).sources_spec() == old(self).sources_spec(),
            r is Ok <==> id < old(self).sources_spec().len() && !old(self).sources_spec()[id as int].closed,
            r is Ok ==> {
                &&& final(self).produced(id as int) == old(self).produced(id as int).push(event)
                &&& final(self).pending(id as int) == old(self).pending(id as int).push(event)
                &&& final(self).emitted(id as int) == old(self).emitted(id as int)
                &&& !final(self).sources_spec()[id as int].closed
            },
            forall|s: int| 0 <= s < old(self).sources_spec().len() && s != id ==>
                #[trigger] final(self).sources_spec()[s] == old(self).sources_spec()[s],
    {
        if id >= self.sources.len() {
            return Err(HubError::UnknownSource);
        }
        if self.sources[id].closed {
            return Err(HubError::SourceClosed);
        }
        let mut src = self.sources.remove(id);
        let ghost before = src;
        src.pending.push(event);
        src.produced = Ghost(src.produced@.push(event));
        proof {
            assert(src.produced@ =~= src.emitted@ + src.pending@);
        }
        self.sources.insert(id, src);
        proof {
            assert forall|s: int| 0 <= s < self.sources@.len() implies (#[trigger] self.sources@[s]).produced@
                == self.sources@[s].emitted@ + self.sources@[s].pending@ by {
                if s != id {
                    assert(self.sources@[s] == old(self).sources@[s]);
                }
            }
        }
        Ok(())
    }

    /// Source `id` has ended; the events it produced before still come out.
    pub fn close(&mut self, id: usize) -> (r: Result<(), HubError>)
        requires
            old(self).wf(),
        ensures
            final(self).wf(),
            final(self).sources_spec().len() == old(self).sources_spec().len(),
            r is Ok <==> id < old(self).sources_spec().len(),
            r is Err ==> final(self).sources_spec() == old(self).sources_spec(),
            r is Ok ==> {
                &&& final(self).produced(id as int) == old(self).produced(id as int)
                &&& final(self).pending(id as int) == old(self).pending(id as int)
                &&& final(self).emitted(id as int) == old(self).emitted(id as int)
                &&& final(self).sources_spec()[id as int].closed
            },
            forall|s: int| 0 <= s < old(self).sources_spec().len() && s != id ==>
                #[trigger] final(self).sources_spec()[s] == old(self).sources_spec()[s],
    {
        if id >= self.sources.len() {
            return Err(HubError::UnknownSource);
        }
        let mut src = self.sources.remove(id);
        src.closed = true;
        self.sources.insert(id, src);
        proof {
            assert forall|s: int| 0 <= s < self.sources@.len() implies (#[trigger] self.sources@[s]).produced@
                == self.sources@[s].emitted@ + self.sources@[s].pending@ by {
                if s != id {
                    assert(self.sources@[s] == old(self).sources@[s]);
                }
            }
        }
        Ok(())
    }

    /// The next event, taking sources in turn from the one after the source
    /// served last. Each event is the oldest pending one of its source.
    pub fn poll(&mut self) -> (r: HubPoll<E>)
        requires
            old(self).wf(),
        ensures
            final(self).wf(),
            final(self).sources_spec().len() == old(self).sources_spec().len(),
            r is Terminated <==> forall|s: int|
                0 <= s < old(self).sources_spec().len() ==> (#[trigger] old(self).sources_spec()[s]).closed
                    && old(self).sources_spec()[s].pending@.len() == 0,
            r is Pending <==> (forall|s: int|
                0 <= s < old(self).sources_spec().len() ==> (#[trigger] old(self).sources_spec()[s]).pending@.len()
                    == 0) && exists|s: int|
                0 <= s < old(self).sources_spec().len() && !(#[trigger] old(self).sources_spec()[s]).closed,
            !(r is Ready) ==> final(self).sources_spec() == old(self).sources_spec(),
            r matches HubPoll::Ready { source, event } ==> {
                &&& source < old(self).sources_spec().len()
                &&& old(self).pending(source as int).len() > 0
                &&& event == old(self).pending(source as int)[0]
                &&& final(self).pending(source as int) == old(self).pending(source as int).drop_first()
                &&& final(self).emitted(source as int) == old(self).emitted(source as int).push(event)
                &&& final(self).produced(source as int) == old(self).produced(source as int)
                &&& final(self).sources_spec()[source as int].closed == old(self).sources_spec()[source as int].closed
                &&& forall|s: int| 0 <= s < old(self).sources_spec().len() && s != source ==>
                    #[trigger] final(self).sources_spec()[s] == old(self).sources_spec()[s]
            },
    {
        let n = self.sources.len();
        let mut k: usize = 0;
        while k < n
            invariant
                n == self.sources@.len(),
                self.wf(),
                self.sources@ == old(self).sources@,
                self.next == old(self).next,
                k <= n,
                forall|j: int| 0 <= j < k ==> (#[trigger] self.sources@[(self.next + j) % (n as int)]).pending@.len() == 0,
            decreases n - k,
        {
            let idx = if k < n - self.next {
                self.next + k
            } else {
                k - (n - self.next)
            };
            assert(idx == (self.next + k) % (n as int)) by (nonlinear_arith)
                requires
                    0 <= self.next < n,
                    0 <= k < n,
                    idx == if k < n - self.next {
                        self.next + k
                    } else {
                        k - (n - self.next)
                    },
            ;
            if self.sources[idx].pending.len() > 0 {
                assert(old(self).sources_spec()[idx as int].pending@.len() > 0);
                let mut src = self.sources.remove(idx);
                let event = src.pending.remove(0);
                proof {
                    src.emitted@ = src.emitted@.push(event);
                    assert(src.produced@ =~= src.emitted@ + src.pending@);
                }
                self.sources.insert(idx, src);
                self.next = if idx + 1 < n {
                    idx + 1
                } else {
                    0
                };
                proof {
                    assert forall|s: int| 0 <= s < self.sources@.len() implies (#[trigger] self.sources@[s]).produced@
                        == self.sources@[s].emitted@ + self.sources@[s].pending@ by {
                        if s != idx {
                            assert(self.sources@[s] == old(self).sources@[s]);
                        }
                    }
                }
                return HubPoll::Ready { source: idx, event };
            }
            k = k + 1;
        }
        proof {
            assert forall|s: int| 0 <= s < n implies (#[trigger] self.sources@[s]).pending@.len() == 0 by {
                let j = (s - self.next + n) % (n as int);
                assert(0 <= j < n);
                assert((self.next + j) % (n as int) == s) by (nonlinear_arith)
                    requires
                        0 <= s < n,
                        0 <= self.next < n,
                        j == (s - self.next + n) % (n as int),
                ;
            }
        }
        let mut t: usize = 0;
        while t < n
            invariant
                n == self.sources@.len(),
                self.wf(),
                self.sources@ == old(self).sources@,
                forall|j: int| 0 <= j < n ==> (#[trigger] self.sources@[j]).pending@.len() == 0,
                t <= n,
                forall|j: int| 0 <= j < t ==> (#[trigger] self.sources@[j]).closed,
            decreases n - t,
        {
            if !self.sources[t].closed {
                assert(!old(self).sources_spec()[t as int].closed);
                return HubPoll::Pending;
            }
            t = t + 1;
        }
        HubPoll::Terminated
    }

    /// Each source's events come out in the order it produced them: what was
    /// handed out of a source is a prefix of what it produced, the rest still
    /// waiting in order.
    pub proof fn lemma_per_source_order(&self, s: int)
        requires
            self.wf(),
            0 <= s < self.sources_spec().len(),
        ensures
            self.emitted(s).len() <= self.produced(s).len(),
            self.emitted(s) == self.produced(s).subrange(0, self.emitted(s).len() as int),
            self.pending(s) == self.produced(s).subrange(self.emitted(s).len() as int, self.produced(s).len() as int),
    {
        let src = self.sources@[s];
        assert(src.produced@ == src.emitted@ + src.pending@);
        assert(src.emitted@ =~= src.produced@.subrange(0, src.emitted@.len() as int));
        assert(src.pending@ =~= src.produced@.subrange(src.emitted@.len() as int, src.produced@.len() as int));
    }
}

} // verus!
