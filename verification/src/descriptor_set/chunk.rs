//! One batch of descriptor sets and the reserve of those that are free.
//!
//! A chunk is created from a whole batch and never gains or loses a set
//! afterwards: each set of the batch is either waiting in the reserve or on
//! loan to exactly one allocation.

use crate::descriptor_set::reserve::{new_queue, pop_front, push_back, queued};
use crossbeam_queue::SegQueue;
use vstd::prelude::*;
use vstd::set_lib::*;

verus! {

/// What a chunk is, as plain values.
pub struct ChunkView {
    /// The token of the batch that the chunk keeps alive.
    pub batch: u64,
    /// Every set of the batch.
    pub sets: Set<u64>,
    /// The free sets, the next one to be handed out first.
    pub available: Seq<u64>,
    /// The sets that allocations currently hold.
    pub loaned: Set<u64>,
}

impl ChunkView {
    /// The chunk made from a batch: every set is free, in the batch's order.
    pub open spec fn fresh(batch: u64, sets: Seq<u64>) -> ChunkView {
        ChunkView { batch, sets: sets.to_set(), available: sets, loaned: Set::empty() }
    }

    /// Each set of the batch is in exactly one place: once in the reserve, or
    /// on loan. Nothing else is in either.
    pub open spec fn wf(self) -> bool {
        &&& self.sets.finite()
        &&& self.available.no_duplicates()
        &&& forall|set: u64|
            self.sets.contains(set) <==> (self.available.contains(set) || self.loaned.contains(
                set,
            ))
        &&& forall|set: u64| !(self.available.contains(set) && self.loaned.contains(set))
    }

    /// The number of sets in the batch.
    pub open spec fn capacity(self) -> nat {
        self.sets.len()
    }

    /// No allocation holds a set of this chunk.
    pub open spec fn unreferenced(self) -> bool {
        self.loaned == Set::<u64>::empty()
    }

    /// The chunk after its first free set went on loan.
    pub open spec fn take(self) -> ChunkView
        recommends
            self.available.len() > 0,
    {
        ChunkView {
            available: self.available.drop_first(),
            loaned: self.loaned.insert(self.available[0]),
            ..self
        }
    }

    /// The chunk after a set on loan came back: it queues up behind the free
    /// ones.
    pub open spec fn give_back(self, set: u64) -> ChunkView
        recommends
            self.loaned.contains(set),
    {
        ChunkView {
            available: self.available.push(set),
            loaned: self.loaned.remove(set),
            ..self
        }
    }

    /// A chunk made from a batch without repeated sets is well formed, holds
    /// the whole batch and has nothing on loan.
    pub proof fn lemma_fresh(batch: u64, sets: Seq<u64>)
        requires
            sets.no_duplicates(),
        ensures
            Self::fresh(batch, sets).wf(),
            Self::fresh(batch, sets).capacity() == sets.len(),
            Self::fresh(batch, sets).unreferenced(),
    {
        sets.unique_seq_to_set();
    }

    /// The sets on loan are finitely many, and together with the free ones
    /// they are as many as the batch holds.
    pub proof fn lemma_conservation(self)
        requires
            self.wf(),
        ensures
            self.loaned.finite(),
            self.available.len() + self.loaned.len() == self.capacity(),
    {
        let free = self.available.to_set();
        self.available.unique_seq_to_set();
        lemma_set_subset_finite(self.sets, self.loaned);
        lemma_set_disjoint_lens(free, self.loaned);
        assert(free + self.loaned =~= self.sets);
    }

    /// Handing out the first free set keeps the chunk well formed. The set was
    /// on loan to nobody before, and one more set is on loan afterwards.
    pub proof fn lemma_take(self)
        requires
            self.wf(),
            self.available.len() > 0,
        ensures
            self.take().wf(),
            self.sets.contains(self.available[0]),
            !self.loaned.contains(self.available[0]),
            self.take().loaned.contains(self.available[0]),
            !self.take().available.contains(self.available[0]),
            self.take().loaned.len() == self.loaned.len() + 1,
            self.take().capacity() == self.capacity(),
    {
        let head = self.available[0];
        let rest = self.available.drop_first();
        self.lemma_conservation();
        assert forall|set: u64| rest.contains(set) <==> (self.available.contains(set) && set
            != head) by {
            if self.available.contains(set) && set != head {
                let i = choose|i: int| 0 <= i < self.available.len() && self.available[i] == set;
                assert(rest[i - 1] == set);
            }
        }
    }

    /// Taking a set back keeps the chunk well formed. The set is the last in
    /// the reserve afterwards, and one set fewer is on loan.
    pub proof fn lemma_give_back(self, set: u64)
        requires
            self.wf(),
            self.loaned.contains(set),
        ensures
            self.give_back(set).wf(),
            self.give_back(set).available.last() == set,
            self.give_back(set).available.len() == self.available.len() + 1,
            !self.give_back(set).loaned.contains(set),
            self.give_back(set).loaned.len() == self.loaned.len() - 1,
            self.give_back(set).capacity() == self.capacity(),
    {
        let more = self.available.push(set);
        self.lemma_conservation();
        assert forall|other: u64| more.contains(other) <==> (self.available.contains(other)
            || other == set) by {
            if self.available.contains(other) {
                let i = choose|i: int|
                    0 <= i < self.available.len() && self.available[i] == other;
                assert(more[i] == other);
            }
            if other == set {
                assert(more[self.available.len() as int] == other);
            }
        }
    }
}

/// One batch of descriptor sets with the reserve of those that are free.
pub struct LocalPoolInner {
    // The token of the batch. It is never read for its value while the chunk
    // lives: the chunk holds it so that the sets stay valid.
    actual_pool: u64,
    // The free sets. `take` draws from here, and `give_back` returns to it.
    reserve: SegQueue<u64>,
    // How many sets the batch holds.
    capacity: u32,
    // How many sets of the batch are on loan.
    on_loan: u32,
    sets: Ghost<Set<u64>>,
    loaned: Ghost<Set<u64>>,
}

impl View for LocalPoolInner {
    type V = ChunkView;

    closed spec fn view(&self) -> ChunkView {
        ChunkView {
            batch: self.actual_pool,
            sets: self.sets@,
            available: queued(self.reserve),
            loaned: self.loaned@,
        }
    }
}

impl LocalPoolInner {
    /// The chunk's view is well formed, the batch is small enough to count in
    /// a `u32`, and the chunk's counters are up to date.
    pub open spec fn wf(&self) -> bool {
        &&& self@.wf()
        &&& self@.capacity() <= u32::MAX
        &&& self.counted()
    }

    /// The two counters say how many sets the batch holds and how many of
    /// them are on loan.
    pub closed spec fn counted(&self) -> bool {
        &&& self.capacity == self@.capacity()
        &&& self.on_loan == self.loaned@.len()
    }

    /// Wraps a batch and puts all its sets in the reserve, in their order.
    pub fn new(actual_pool: u64, sets: Vec<u64>) -> (chunk: LocalPoolInner)
        requires
            sets@.no_duplicates(),
            sets.len() <= u32::MAX,
        ensures
            chunk.wf(),
            chunk@ == ChunkView::fresh(actual_pool, sets@),
    {
        let mut reserve = new_queue();
        let mut i: usize = 0;
        while i < sets.len()
            invariant
                i <= sets.len(),
                queued(reserve) == sets@.take(i as int),
            decreases sets.len() - i,
        {
            push_back(&mut reserve, sets[i]);
            i += 1;
        }
        assert(sets@.take(sets.len() as int) == sets@);
        proof {
            ChunkView::lemma_fresh(actual_pool, sets@);
        }
        LocalPoolInner {
            actual_pool,
            reserve,
            capacity: sets.len() as u32,
            on_loan: 0,
            sets: Ghost(sets@.to_set()),
            loaned: Ghost(Set::empty()),
        }
    }

    /// The token of the batch that this chunk keeps alive.
    pub fn batch(&self) -> (batch: u64)
        ensures
            batch == self@.batch,
    {
        self.actual_pool
    }

    /// The number of sets in the batch.
    pub fn capacity(&self) -> (capacity: u32)
        requires
            self.wf(),
        ensures
            capacity == self@.capacity(),
    {
        self.capacity
    }

    /// The number of free sets.
    pub fn available(&self) -> (free: u32)
        requires
            self.wf(),
        ensures
            free == self@.available.len(),
    {
        proof {
            self@.lemma_conservation();
        }
        self.capacity - self.on_loan
    }

    /// The number of sets on loan.
    pub fn on_loan(&self) -> (loaned: u32)
        requires
            self.wf(),
        ensures
            loaned == self@.loaned.len(),
    {
        self.on_loan
    }

    /// Whether no allocation holds a set of this chunk.
    pub fn is_unreferenced(&self) -> (unreferenced: bool)
        requires
            self.wf(),
        ensures
            unreferenced == self@.unreferenced(),
    {
        proof {
            self@.lemma_conservation();
            if self.loaned@.len() == 0 {
                assert(self.loaned@ =~= Set::<u64>::empty());
            }
        }
        self.on_loan == 0
    }

    /// Takes the first free set out of the reserve, if there is one. The set
    /// is on loan from then on.
    pub fn take(&mut self) -> (set: Option<u64>)
        requires
            old(self).wf(),
        ensures
            final(self).wf(),
            old(self)@.available.len() == 0 ==> set is None && final(self)@ == old(self)@,
            old(self)@.available.len() > 0 ==> set == Some(old(self)@.available[0])
                && final(self)@ == old(self)@.take(),
    {
        match pop_front(&mut self.reserve) {
            Some(set) => {
                proof {
                    old(self)@.lemma_take();
                    old(self)@.take().lemma_conservation();
                    self.loaned = Ghost(self.loaned@.insert(set));
                }
                self.on_loan = self.on_loan + 1;
                Some(set)
            },
            None => None,
        }
    }

    /// Puts a set that was on loan back into the reserve.
    pub fn give_back(&mut self, set: u64)
        requires
            old(self).wf(),
            old(self)@.loaned.contains(set),
        ensures
            final(self).wf(),
            final(self)@ == old(self)@.give_back(set),
    {
        proof {
            old(self)@.lemma_give_back(set);
        }
        push_back(&mut self.reserve, set);
        self.on_loan = self.on_loan - 1;
        proof {
            self.loaned = Ghost(self.loaned@.remove(set));
        }
    }
}

} // verus!
