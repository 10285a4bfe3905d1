//! The pool as a state machine over plain values.
//!
//! A pool reacts to three events: a caller asks for a set, a batch that the
//! pool asked for was created, or creating it failed. It answers each with an
//! action. Releasing an allocation is the fourth way in which a pool changes.
//! This file says what each of them does to a pool.

use crate::descriptor_set::chunk::ChunkView;
use crate::descriptor_set::growth::{capacity_of_batch, doubled, FIRST_CAPACITY};
use crate::descriptor_set::pool::{DescriptorPoolAllocError, OomError};
use vstd::prelude::*;

verus! {

/// One set on loan, as plain values.
pub struct AllocView {
    /// The place of the chunk that the set was drawn from, counting the
    /// chunks of the pool from zero in the order of their creation.
    pub chunk: int,
    /// The set.
    pub set: u64,
}

/// What a pool is told.
pub enum EventView {
    /// A caller asks for a set.
    Request,
    /// The batch that the pool asked for was created.
    Created { batch: u64, sets: Seq<u64> },
    /// The batch that the pool asked for could not be created.
    Failed(DescriptorPoolAllocError),
}

/// What a pool answers.
pub enum ActionView {
    /// A set goes on loan. A chunk that nothing refers to any more gives up
    /// its batch, which can then be destroyed.
    Allocated { alloc: AllocView, retired: Option<u64> },
    /// The pool has no free set: a batch of `count` sets is to be created on
    /// `device`.
    Create { device: u64, count: u32 },
    /// The request fails.
    Failed(OomError),
}

/// What a pool is, as plain values.
pub struct PoolView {
    /// The device on which batches are created.
    pub device: u64,
    /// Every chunk that the pool ever created, in the order of creation.
    /// A chunk that was destroyed leaves `None` in its place.
    pub chunks: Seq<Option<ChunkView>>,
    /// The place of the chunk that serves requests, if there is one yet.
    pub current: Option<int>,
    /// The number of sets in the next batch.
    pub next_capacity: u32,
}

impl PoolView {
    /// A pool that has created nothing yet.
    pub open spec fn fresh(device: u64) -> PoolView {
        PoolView { device, chunks: Seq::empty(), current: None, next_capacity: FIRST_CAPACITY }
    }

    /// The chunk at place `i`, if it exists and was not destroyed.
    pub open spec fn chunk(self, i: int) -> Option<ChunkView> {
        if 0 <= i < self.chunks.len() {
            self.chunks[i]
        } else {
            None
        }
    }

    /// The chunk that serves requests.
    pub open spec fn current_chunk(self) -> Option<ChunkView> {
        match self.current {
            Some(i) => self.chunk(i),
            None => None,
        }
    }

    /// Whether the current chunk has a free set.
    pub open spec fn can_serve(self) -> bool {
        self.current_chunk() matches Some(chunk) && chunk.available.len() > 0
    }

    /// Whether `alloc` is on loan from this pool.
    pub open spec fn holds(self, alloc: AllocView) -> bool {
        self.chunk(alloc.chunk) matches Some(chunk) && chunk.loaned.contains(alloc.set)
    }

    /// What has to hold of the chunk at place `i`, if it is alive: it is well
    /// formed, it has the size of the batch that was created at that place,
    /// and something refers to it, the pool as its current chunk or an
    /// allocation.
    pub open spec fn chunk_wf(self, i: int) -> bool {
        self.chunks[i] matches Some(chunk) ==> {
            &&& chunk.wf()
            &&& chunk.capacity() == capacity_of_batch(i as nat)
            &&& chunk.unreferenced() ==> self.current == Some(i)
        }
    }

    /// The pool's invariant. The current chunk is the one created last, every
    /// living chunk is as `chunk_wf` says, and the next batch has the size
    /// that follows from the number of batches created so far.
    pub open spec fn wf(self) -> bool {
        &&& self.next_capacity == capacity_of_batch(self.chunks.len())
        &&& self.current == if self.chunks.len() == 0 {
            None
        } else {
            Some(self.chunks.len() - 1)
        }
        &&& self.current_chunk() is Some <==> self.current is Some
        &&& forall|i: int| 0 <= i < self.chunks.len() ==> #[trigger] self.chunk_wf(i)
    }

    /// The allocation that the pool hands out next.
    pub open spec fn served(self) -> AllocView
        recommends
            self.can_serve(),
    {
        AllocView { chunk: self.current.unwrap(), set: self.current_chunk().unwrap().available[0] }
    }

    /// The pool after it handed out the first free set of its current chunk.
    pub open spec fn serve(self) -> PoolView
        recommends
            self.can_serve(),
    {
        PoolView {
            chunks: self.chunks.update(
                self.current.unwrap(),
                Some(self.current_chunk().unwrap().take()),
            ),
            ..self
        }
    }

    /// The batch that is given up when a new chunk takes the place of the
    /// current one: that of the current chunk, if no allocation holds a set of
    /// it.
    pub open spec fn retired_by_install(self) -> Option<u64> {
        match self.current_chunk() {
            Some(chunk) => if chunk.unreferenced() {
                Some(chunk.batch)
            } else {
                None
            },
            None => None,
        }
    }

    /// The pool after a new batch became its current chunk. The chunk that
    /// was current lives on if allocations still hold sets of it, and the next
    /// batch will be twice as large.
    pub open spec fn install(self, batch: u64, sets: Seq<u64>) -> PoolView {
        let kept = if self.retired_by_install() is Some {
            self.chunks.update(self.current.unwrap(), None)
        } else {
            self.chunks
        };
        PoolView {
            chunks: kept.push(Some(ChunkView::fresh(batch, sets))),
            current: Some(self.chunks.len() as int),
            next_capacity: doubled(self.next_capacity),
            ..self
        }
    }

    /// Whether the pool can be told `event`. A batch that comes in has as many
    /// sets as the pool would ask for, each of them once, and a failure is for
    /// want of memory.
    pub open spec fn admits(self, event: EventView) -> bool {
        match event {
            EventView::Request => true,
            EventView::Created { batch, sets } => sets.len() == self.next_capacity
                && sets.no_duplicates(),
            EventView::Failed(error) => error.is_oom(),
        }
    }

    /// The pool after `event`.
    ///
    /// A request takes a set from the current chunk, or changes nothing if
    /// there is none to take. A new batch becomes the current chunk and gives
    /// its first set. A failure changes nothing.
    pub open spec fn after(self, event: EventView) -> PoolView {
        match event {
            EventView::Request => if self.can_serve() {
                self.serve()
            } else {
                self
            },
            EventView::Created { batch, sets } => self.install(batch, sets).serve(),
            EventView::Failed(_) => self,
        }
    }

    /// The pool's answer to `event`.
    ///
    /// A request is served from the current chunk; only if that has no free
    /// set, or there is no chunk yet, the pool asks for a batch of
    /// `next_capacity` sets. A new batch serves the request that it was
    /// created for. A failure is passed on.
    pub open spec fn action(self, event: EventView) -> ActionView {
        match event {
            EventView::Request => if self.can_serve() {
                ActionView::Allocated { alloc: self.served(), retired: None }
            } else {
                ActionView::Create { device: self.device, count: self.next_capacity }
            },
            EventView::Created { batch, sets } => ActionView::Allocated {
                alloc: self.install(batch, sets).served(),
                retired: self.retired_by_install(),
            },
            EventView::Failed(error) => ActionView::Failed(error.oom()),
        }
    }

    /// The batch that is given up when `alloc` is released: that of its
    /// chunk, if this was the chunk's last loan and the chunk is not the
    /// current one.
    pub open spec fn retired_by_release(self, alloc: AllocView) -> Option<u64>
        recommends
            self.holds(alloc),
    {
        let chunk = self.chunks[alloc.chunk].unwrap().give_back(alloc.set);
        if chunk.unreferenced() && self.current != Some(alloc.chunk) {
            Some(chunk.batch)
        } else {
            None
        }
    }

    /// The pool after `alloc` was released. The set goes back to the reserve
    /// of the chunk that it was drawn from, whether or not that chunk is
    /// current. A chunk that nothing refers to any more is destroyed.
    pub open spec fn release(self, alloc: AllocView) -> PoolView
        recommends
            self.holds(alloc),
    {
        let chunk = self.chunks[alloc.chunk].unwrap().give_back(alloc.set);
        let slot = if self.retired_by_release(alloc) is Some {
            None
        } else {
            Some(chunk)
        };
        PoolView { chunks: self.chunks.update(alloc.chunk, slot), ..self }
    }
}

} // verus!
