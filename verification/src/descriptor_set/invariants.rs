//! What holds of every pool, whatever was asked of it.

use crate::descriptor_set::chunk::ChunkView;
use crate::descriptor_set::growth::{
    capacity_of_batch, lemma_capacity_bounds, lemma_capacity_step, lemma_first_capacity,
};
use crate::descriptor_set::state::{ActionView, AllocView, EventView, PoolView};
use vstd::prelude::*;

verus! {

/// One thing that happens to a pool: it is told an event, or an allocation is
/// released.
pub enum OpView {
    /// The pool is told an event.
    Event(EventView),
    /// An allocation is released.
    Release(AllocView),
}

impl PoolView {
    /// A pool that has created nothing yet is well formed, has lent nothing
    /// and cannot serve a request.
    pub proof fn lemma_fresh(device: u64)
        ensures
            Self::fresh(device).wf(),
            !Self::fresh(device).can_serve(),
            forall|alloc: AllocView| !Self::fresh(device).holds(alloc),
    {
        lemma_first_capacity();
    }

    /// Serving a request keeps the pool well formed. The set that goes out
    /// was on loan to nobody, and every allocation that was on loan still is.
    pub proof fn lemma_serve(self)
        requires
            self.wf(),
            self.can_serve(),
        ensures
            self.serve().wf(),
            !self.holds(self.served()),
            self.serve().holds(self.served()),
            forall|alloc: AllocView| self.holds(alloc) ==> self.serve().holds(alloc),
            forall|alloc: AllocView|
                self.serve().holds(alloc) ==> self.holds(alloc) || alloc == self.served(),
            self.serve().chunks.len() == self.chunks.len(),
            self.serve().current == self.current,
            self.serve().next_capacity == self.next_capacity,
    {
        let at = self.current.unwrap();
        let chunk = self.chunks[at].unwrap();
        assert(self.chunk_wf(at));
        chunk.lemma_take();
        let next = self.serve();
        assert forall|i: int| 0 <= i < next.chunks.len() implies #[trigger] next.chunk_wf(i) by {
            assert(self.chunk_wf(i));
        }
    }

    /// Installing a batch keeps the pool well formed and lets it serve. The
    /// new chunk is the current one, it is the only chunk that was added, and
    /// every allocation that was on loan still is: its chunk lives on though
    /// it is no longer current.
    pub proof fn lemma_install(self, batch: u64, sets: Seq<u64>)
        requires
            self.wf(),
            self.admits(EventView::Created { batch, sets }),
        ensures
            self.install(batch, sets).wf(),
            self.install(batch, sets).can_serve(),
            self.install(batch, sets).chunks.len() == self.chunks.len() + 1,
            self.install(batch, sets).current == Some(self.chunks.len() as int),
            self.install(batch, sets).current_chunk() == Some(ChunkView::fresh(batch, sets)),
            self.install(batch, sets).next_capacity == capacity_of_batch(self.chunks.len() + 1),
            forall|alloc: AllocView| self.holds(alloc) <==> self.install(batch, sets).holds(alloc),
    {
        let next = self.install(batch, sets);
        let count = self.chunks.len();
        ChunkView::lemma_fresh(batch, sets);
        lemma_capacity_bounds(count);
        lemma_capacity_step(count);
        assert forall|i: int| 0 <= i < next.chunks.len() implies #[trigger] next.chunk_wf(i) by {
            if i < count {
                assert(self.chunk_wf(i));
            }
        }
    }

    /// Releasing an allocation keeps the pool well formed. The allocation is
    /// on loan no longer, and every other one is on loan exactly if it was
    /// before. The set waits last in the reserve of the chunk that it came
    /// from, unless that chunk was destroyed; if the chunk is the current one,
    /// the pool can serve a request at once.
    pub proof fn lemma_release(self, alloc: AllocView)
        requires
            self.wf(),
            self.holds(alloc),
        ensures
            self.release(alloc).wf(),
            !self.release(alloc).holds(alloc),
            forall|other: AllocView|
                other != alloc ==> (self.holds(other) <==> self.release(alloc).holds(other)),
            self.release(alloc).chunk(alloc.chunk) matches Some(chunk) ==> chunk.available.last()
                == alloc.set && chunk.available.len() == self.chunk(
                alloc.chunk,
            ).unwrap().available.len() + 1,
            self.release(alloc).chunk(alloc.chunk) is None <==> self.retired_by_release(alloc)
                is Some,
            self.current == Some(alloc.chunk) ==> self.release(alloc).can_serve(),
            forall|i: int|
                0 <= i < self.chunks.len() && i != alloc.chunk ==> self.release(alloc).chunks[i]
                    == self.chunks[i],
            self.release(alloc).chunks.len() == self.chunks.len(),
            self.release(alloc).current == self.current,
            self.release(alloc).next_capacity == self.next_capacity,
    {
        let at = alloc.chunk;
        let chunk = self.chunks[at].unwrap();
        assert(self.chunk_wf(at));
        chunk.lemma_give_back(alloc.set);
        let next = self.release(alloc);
        assert forall|i: int| 0 <= i < next.chunks.len() implies #[trigger] next.chunk_wf(i) by {
            assert(self.chunk_wf(i));
        }
    }

    /// The pool after `n` requests were served one after the other.
    pub open spec fn serve_many(self, n: nat) -> PoolView
        decreases n,
    {
        if n == 0 {
            self
        } else {
            self.serve().serve_many((n - 1) as nat)
        }
    }

    /// Serving `n` requests from a current chunk that has at least `n` free
    /// sets takes the first `n` of them, in order, and nothing else changes.
    pub proof fn lemma_serve_many(self, n: nat)
        requires
            self.wf(),
            self.current_chunk() matches Some(chunk) && chunk.available.len() >= n,
        ensures
            self.serve_many(n).wf(),
            self.serve_many(n).current == self.current,
            self.serve_many(n).current_chunk() matches Some(chunk) && chunk.available
                == self.current_chunk().unwrap().available.skip(n as int),
        decreases n,
    {
        if n > 0 {
            self.lemma_serve();
            self.serve().lemma_serve_many((n - 1) as nat);
        }
    }

    /// A set that is released to the current chunk is handed out again: it
    /// is the answer to the request that comes after as many requests as
    /// there were free sets before it. If the reserve was empty, that is the
    /// very next request.
    pub proof fn lemma_recycling(self, alloc: AllocView)
        requires
            self.wf(),
            self.holds(alloc),
            self.current == Some(alloc.chunk),
        ensures
            ({
                let free = self.current_chunk().unwrap().available.len();
                let later = self.release(alloc).serve_many(free);
                later.wf() && later.action(EventView::Request) == (ActionView::Allocated {
                    alloc,
                    retired: None,
                })
            }),
    {
        let free = self.current_chunk().unwrap().available;
        self.lemma_release(alloc);
        self.release(alloc).lemma_serve_many(free.len());
    }

    /// The pool after the allocations in `allocs` were released, in order.
    pub open spec fn release_all(self, allocs: Seq<AllocView>) -> PoolView
        decreases allocs.len(),
    {
        if allocs.len() == 0 {
            self
        } else {
            self.release_all(allocs.drop_last()).release(allocs.last())
        }
    }

    /// Releasing several allocations of one chunk, in whatever order, loses
    /// none of their sets and doubles none: if the chunk is still there
    /// afterwards, its reserve holds what it held before and then exactly the
    /// released sets, each once, and the chunk has that many sets fewer on
    /// loan. The chunk is gone only if it was not current and these were all
    /// its loans.
    pub proof fn lemma_release_all(self, allocs: Seq<AllocView>, at: int)
        requires
            self.wf(),
            allocs.no_duplicates(),
            forall|i: int|
                0 <= i < allocs.len() ==> self.holds(#[trigger] allocs[i]) && allocs[i].chunk
                    == at,
        ensures
            self.release_all(allocs).wf(),
            self.release_all(allocs).current == self.current,
            forall|other: AllocView|
                !allocs.contains(other) ==> (self.holds(other) <==> self.release_all(allocs).holds(
                    other,
                )),
            forall|i: int|
                0 <= i < allocs.len() ==> !self.release_all(allocs).holds(#[trigger] allocs[i]),
            allocs.len() > 0 ==> match self.release_all(allocs).chunk(at) {
                Some(chunk) => {
                    &&& chunk.available == self.chunk(at).unwrap().available + allocs.map_values(
                        |alloc: AllocView| alloc.set,
                    )
                    &&& chunk.available.no_duplicates()
                    &&& chunk.loaned.len() + allocs.len() == self.chunk(at).unwrap().loaned.len()
                },
                None => {
                    &&& self.current != Some(at)
                    &&& self.chunk(at).unwrap().loaned.len() == allocs.len()
                },
            },
        decreases allocs.len(),
    {
        if allocs.len() > 0 {
            let before = allocs.drop_last();
            let last = allocs.last();
            let sets = |alloc: AllocView| alloc.set;
            assert(!before.contains(last));
            self.lemma_release_all(before, at);
            let mid = self.release_all(before);
            mid.lemma_release(last);
            let end = mid.release(last);
            let start = self.chunk(at).unwrap();
            assert(self.chunk_wf(at));
            assert(mid.chunk_wf(at));
            mid.chunk(at).unwrap().lemma_give_back(last.set);
            assert forall|other: AllocView| !allocs.contains(other) implies (self.holds(other)
                <==> end.holds(other)) by {
                assert(other != last);
                assert(!before.contains(other));
            }
            assert forall|i: int| 0 <= i < allocs.len() implies !end.holds(
                #[trigger] allocs[i],
            ) by {
                if i < before.len() {
                    assert(!mid.holds(before[i]));
                }
            }
            if before.len() > 0 {
                assert((start.available + before.map_values(sets)).push(last.set)
                    =~= start.available + allocs.map_values(sets));
            }
        }
    }

    /// Whatever a well-formed pool is told, it stays well formed, and no
    /// allocation that is on loan is lost or handed out a second time. The
    /// pool asks for a batch only when it cannot serve: when there is no
    /// chunk yet or the reserve of the current chunk is empty.
    pub proof fn lemma_after(self, event: EventView)
        requires
            self.wf(),
            self.admits(event),
        ensures
            self.after(event).wf(),
            forall|alloc: AllocView| self.holds(alloc) ==> self.after(event).holds(alloc),
            self.action(event) matches ActionView::Allocated { alloc, .. } ==> !self.holds(alloc)
                && self.after(event).holds(alloc),
            self.action(event) matches ActionView::Create { count, .. } ==> !self.can_serve()
                && count == capacity_of_batch(self.chunks.len()),
            self.action(event) is Create || self.action(event) is Failed ==> self.after(event)
                == self,
    {
        match event {
            EventView::Request => {
                if self.can_serve() {
                    self.lemma_serve();
                }
            },
            EventView::Created { batch, sets } => {
                self.lemma_install(batch, sets);
                self.install(batch, sets).lemma_serve();
            },
            EventView::Failed(_) => {},
        }
    }

    /// Whether `op` can happen to the pool: an event that the pool admits, or
    /// the release of an allocation that is on loan from it.
    pub open spec fn allows(self, op: OpView) -> bool {
        match op {
            OpView::Event(event) => self.admits(event),
            OpView::Release(alloc) => self.holds(alloc),
        }
    }

    /// The pool after `op`.
    pub open spec fn apply(self, op: OpView) -> PoolView {
        match op {
            OpView::Event(event) => self.after(event),
            OpView::Release(alloc) => self.release(alloc),
        }
    }

    /// The pool on `device` after everything in `ops` happened to it, in
    /// order, starting from a pool that has created nothing.
    pub open spec fn run(device: u64, ops: Seq<OpView>) -> PoolView
        decreases ops.len(),
    {
        if ops.len() == 0 {
            Self::fresh(device)
        } else {
            Self::run(device, ops.drop_last()).apply(ops.last())
        }
    }

    /// Whether each of `ops` can happen to the pool that those before it
    /// lead to.
    pub open spec fn legal(device: u64, ops: Seq<OpView>) -> bool
        decreases ops.len(),
    {
        ops.len() == 0 || (Self::legal(device, ops.drop_last()) && Self::run(
            device,
            ops.drop_last(),
        ).allows(ops.last()))
    }

    /// The number of batches that came in during `ops`.
    pub open spec fn batches_created(ops: Seq<OpView>) -> nat
        decreases ops.len(),
    {
        if ops.len() == 0 {
            0
        } else {
            Self::batches_created(ops.drop_last()) + if ops.last() matches OpView::Event(
                EventView::Created { .. },
            ) {
                1nat
            } else {
                0nat
            }
        }
    }

    /// After any sequence of requests, batches, failures and releases the
    /// pool is well formed. In every living chunk no set is both free and on
    /// loan, the free sets and the lent ones together are the sets of the
    /// batch, and they are as many as the batch had when it was created.
    pub proof fn lemma_run_wf(device: u64, ops: Seq<OpView>)
        requires
            Self::legal(device, ops),
        ensures
            Self::run(device, ops).wf(),
            forall|i: int|
                #![trigger Self::run(device, ops).chunks[i]]
                0 <= i < Self::run(device, ops).chunks.len() ==> (Self::run(
                    device,
                    ops,
                ).chunks[i] matches Some(chunk) ==> {
                    &&& chunk.available.no_duplicates()
                    &&& chunk.available.to_set().disjoint(chunk.loaned)
                    &&& chunk.available.to_set().union(chunk.loaned) == chunk.sets
                    &&& chunk.available.len() + chunk.loaned.len() == chunk.sets.len()
                    &&& chunk.sets.len() == capacity_of_batch(i as nat)
                }),
        decreases ops.len(),
    {
        let end = Self::run(device, ops);
        if ops.len() == 0 {
            Self::lemma_fresh(device);
        } else {
            let before = Self::run(device, ops.drop_last());
            Self::lemma_run_wf(device, ops.drop_last());
            match ops.last() {
                OpView::Event(event) => before.lemma_after(event),
                OpView::Release(alloc) => before.lemma_release(alloc),
            }
        }
        assert forall|i: int| #![trigger end.chunks[i]] 0 <= i < end.chunks.len() implies (
        end.chunks[i] matches Some(chunk) ==> {
            &&& chunk.available.no_duplicates()
            &&& chunk.available.to_set().disjoint(chunk.loaned)
            &&& chunk.available.to_set().union(chunk.loaned) == chunk.sets
            &&& chunk.available.len() + chunk.loaned.len() == chunk.sets.len()
            &&& chunk.sets.len() == capacity_of_batch(i as nat)
        }) by {
            assert(end.chunk_wf(i));
            if end.chunks[i] is Some {
                let chunk = end.chunks[i].unwrap();
                chunk.lemma_conservation();
            }
        }
    }

    /// The pool has one chunk place for each batch that came in, and the
    /// batch that it asks for after `n` batches holds `3 * 2^n` sets, or
    /// `u32::MAX` where that does not fit. Failures and releases do not
    /// change what it asks for.
    pub proof fn lemma_capacity_growth(device: u64, ops: Seq<OpView>)
        requires
            Self::legal(device, ops),
        ensures
            Self::run(device, ops).chunks.len() == Self::batches_created(ops),
            Self::run(device, ops).next_capacity == capacity_of_batch(Self::batches_created(ops)),
            Self::run(device, ops).action(EventView::Request) matches ActionView::Create {
                count,
                ..
            } ==> count == capacity_of_batch(Self::batches_created(ops)),
        decreases ops.len(),
    {
        Self::lemma_run_wf(device, ops);
        if ops.len() > 0 {
            let before = Self::run(device, ops.drop_last());
            Self::lemma_capacity_growth(device, ops.drop_last());
            Self::lemma_run_wf(device, ops.drop_last());
            match ops.last() {
                OpView::Event(EventView::Created { batch, sets }) => {
                    before.lemma_install(batch, sets);
                    before.install(batch, sets).lemma_serve();
                },
                OpView::Event(_) => {},
                OpView::Release(alloc) => before.lemma_release(alloc),
            }
        }
    }

    /// An allocation stays on loan until it is released: whatever else
    /// happens to the pool in between, requests, new batches that take the
    /// place of the current chunk, failures, releases of other allocations,
    /// its chunk is still there and still counts its set as lent.
    pub proof fn lemma_loan_outlives(device: u64, ops: Seq<OpView>, from: int, alloc: AllocView)
        requires
            Self::legal(device, ops),
            0 <= from <= ops.len(),
            Self::run(device, ops.take(from)).holds(alloc),
            forall|k: int| from <= k < ops.len() ==> ops[k] != OpView::Release(alloc),
        ensures
            Self::run(device, ops).holds(alloc),
            Self::run(device, ops).chunk(alloc.chunk) is Some,
        decreases ops.len(),
    {
        if from == ops.len() {
            assert(ops.take(from) =~= ops);
        } else {
            let before = ops.drop_last();
            assert(before.take(from) =~= ops.take(from));
            Self::lemma_loan_outlives(device, before, from, alloc);
            Self::lemma_run_wf(device, before);
            let state = Self::run(device, before);
            match ops.last() {
                OpView::Event(event) => state.lemma_after(event),
                OpView::Release(other) => state.lemma_release(other),
            }
        }
    }
}

} // verus!
