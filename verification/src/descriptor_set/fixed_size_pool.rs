//! Pool of descriptor sets of a specific capacity that are automatically
//! reclaimed.
//!
//! The pool draws its sets from batches. It asks for a batch when it has no
//! free set left, and for a larger one each time. Creating a batch is not the
//! pool's work: `LocalPool::allocate` says when one is needed and how large, and
//! is told the outcome in its next call. A set that is released goes back to
//! the chunk that it was drawn from, and a chunk lives for as long as the pool
//! serves from it or an allocation holds one of its sets.
//!
//! `allocate` and `release` take the pool by exclusive reference. Callers on
//! several threads share a pool behind a lock.

use crate::descriptor_set::chunk::LocalPoolInner;
use crate::descriptor_set::growth::{grown, FIRST_CAPACITY};
use crate::descriptor_set::layout::{share, DescriptorSetLayout, LayoutView};
use crate::descriptor_set::persistent::{
    viewed, ArrayView, BuilderView, DescriptorWrite, DescriptorWriteInner, PersistentBuildAction,
    PersistentDescriptorSet, PersistentDescriptorSetBuildError, PersistentDescriptorSetBuilder,
    PersistentDescriptorSetBuilderArray, PersistentDescriptorSetError, Resource, SetView,
};
use crate::descriptor_set::pool::{DescriptorPoolAllocError, OomError};
use crate::descriptor_set::state::{ActionView, AllocView, EventView, PoolView};
use core::hash::{Hash, Hasher};
use std::sync::Arc;
use vstd::prelude::*;

verus! {

/// What a `FixedSizeDescriptorSetsPool` is, as plain values.
pub struct FixedPoolView {
    /// The layout of every descriptor set of the pool.
    pub layout: LayoutView,
    /// The pool proper.
    pub pool: PoolView,
}

/// Pool of descriptor sets of a specific capacity that are automatically
/// reclaimed.
pub struct FixedSizeDescriptorSetsPool {
    layout: Arc<DescriptorSetLayout>,
    // The pool proper, kept in a struct of its own.
    pool: LocalPool,
}

impl View for FixedSizeDescriptorSetsPool {
    type V = FixedPoolView;

    closed spec fn view(&self) -> FixedPoolView {
        FixedPoolView { layout: self.layout@, pool: self.pool@ }
    }
}

impl FixedSizeDescriptorSetsPool {
    /// The layout's bindings can be numbered with a `u32`, the pool proper is
    /// well formed, and it creates its batches on the layout's device.
    pub open spec fn wf(&self) -> bool {
        &&& self@.layout.descriptors.len() <= u32::MAX
        &&& self@.pool.wf()
        &&& self@.pool.device == self@.layout.device
        &&& self.counted()
    }

    /// The chunks of the pool proper keep their counters up to date.
    pub closed spec fn counted(&self) -> bool {
        self.pool.counted()
    }

    /// Initializes a new pool. The pool allocates sets of the given layout, on
    /// the device of that layout.
    pub fn new(layout: Arc<DescriptorSetLayout>) -> (pool: FixedSizeDescriptorSetsPool)
        requires
            layout.wf(),
        ensures
            pool.wf(),
            pool@ == (FixedPoolView { layout: layout@, pool: PoolView::fresh(layout@.device) }),
    {
        let device = layout.device();
        FixedSizeDescriptorSetsPool { layout, pool: LocalPool::new(device) }
    }

    /// Starts the process of building a new descriptor set.
    ///
    /// The set will have the layout that was passed to `new`. The builder
    /// borrows the pool until the set is built or a step fails.
    pub fn next(&mut self) -> (builder: FixedSizeDescriptorSetBuilder<'_>)
        requires
            old(self).wf(),
        ensures
            builder.wf(),
            builder@ == BuilderView::start(old(self)@.layout),
            *builder.pool == *old(self),
            *final(builder.pool) == *final(self),
    {
        let inner = PersistentDescriptorSet::start(share(&self.layout));
        FixedSizeDescriptorSetBuilder { pool: self, inner }
    }

    /// The layout of the pool's descriptor sets.
    pub fn layout(&self) -> (layout: &Arc<DescriptorSetLayout>)
        ensures
            layout@ == self@.layout,
    {
        &self.layout
    }

    /// The pool proper.
    pub fn pool(&self) -> (pool: &LocalPool)
        ensures
            pool@ == self@.pool,
            pool.counted() == self.counted(),
    {
        &self.pool
    }

    /// Ends the loan of `set`: the descriptor set goes back to the reserve of
    /// the chunk that it was drawn from. If nothing refers to that chunk any
    /// more, the batch that it owned is returned: it can be destroyed.
    pub fn release(&mut self, set: FixedSizeDescriptorSet) -> (retired: Option<u64>)
        requires
            old(self).wf(),
            old(self)@.pool.holds(set@.alloc),
        ensures
            final(self).wf(),
            final(self)@ == (FixedPoolView {
                pool: old(self)@.pool.release(set@.alloc),
                ..old(self)@
            }),
            retired == old(self)@.pool.retired_by_release(set@.alloc),
    {
        self.pool.release(set.inner.into_inner())
    }
}

/// A descriptor set created from a `FixedSizeDescriptorSetsPool`.
#[derive(Debug)]
pub struct FixedSizeDescriptorSet {
    inner: PersistentDescriptorSet,
}

impl View for FixedSizeDescriptorSet {
    type V = SetView;

    closed spec fn view(&self) -> SetView {
        self.inner@
    }
}

impl FixedSizeDescriptorSet {
    /// The descriptor set itself.
    pub fn inner(&self) -> (set: u64)
        ensures
            set == self@.alloc.set,
    {
        self.inner.inner().inner()
    }

    /// The layout of the set.
    pub fn layout(&self) -> (layout: &Arc<DescriptorSetLayout>)
        ensures
            layout@ == self@.layout,
    {
        self.inner.layout()
    }

    /// The device that the set belongs to.
    pub fn device(&self) -> (device: u64)
        ensures
            device == self@.layout.device,
    {
        self.inner.device()
    }

    /// What is bound in the set, in the order of binding.
    pub fn writes(&self) -> (writes: &Vec<DescriptorWrite>)
        ensures
            writes@ == self@.writes,
    {
        self.inner.writes()
    }
}

impl PartialEq for FixedSizeDescriptorSet {
    /// Two sets are equal if they are the same descriptor set of the same
    /// device.
    fn eq(&self, other: &Self) -> (equal: bool) {
        self.inner() == other.inner() && self.device() == other.device()
    }
}

impl Eq for FixedSizeDescriptorSet {

}

impl vstd::std_specs::cmp::PartialEqSpecImpl for FixedSizeDescriptorSet {
    open spec fn obeys_eq_spec() -> bool {
        true
    }

    open spec fn eq_spec(&self, other: &Self) -> bool {
        self@.alloc.set == other@.alloc.set && self@.layout.device == other@.layout.device
    }
}

/// `u64::hash` feeds the value into the hasher. Nothing is claimed of what
/// the hasher makes of it.
pub assume_specification<H: Hasher>[ <u64 as Hash>::hash ](value: &u64, state: &mut H)
;

impl Hash for FixedSizeDescriptorSet {
    /// Hashes what `eq` compares: the descriptor set and the device.
    fn hash<H: Hasher>(&self, state: &mut H) {
        self.inner().hash(state);
        self.device().hash(state);
    }
}

/// What the building of a `FixedSizeDescriptorSet` came to.
pub enum FixedSizeBuildAction<'a> {
    /// The set is built. If `retired` names a batch, the chunk that owned it
    /// is gone and the batch can be destroyed.
    Built { set: FixedSizeDescriptorSet, retired: Option<u64> },
    /// The pool has no free set. A batch of `count` sets is to be created on
    /// `device`; then `builder` builds again, with the outcome.
    Create { builder: FixedSizeDescriptorSetBuilder<'a>, device: u64, count: u32 },
    /// The set cannot be built.
    Failed(PersistentDescriptorSetBuildError),
}

/// Prototype of a `FixedSizeDescriptorSet`.
///
/// See the docs of `FixedSizeDescriptorSetsPool` for an example.
pub struct FixedSizeDescriptorSetBuilder<'a> {
    /// The pool that the set will be taken from.
    pub pool: &'a mut FixedSizeDescriptorSetsPool,
    /// What was bound so far.
    pub inner: PersistentDescriptorSetBuilder,
}

impl<'a> View for FixedSizeDescriptorSetBuilder<'a> {
    type V = BuilderView;

    open spec fn view(&self) -> BuilderView {
        self.inner@
    }
}

impl<'a> FixedSizeDescriptorSetBuilder<'a> {
    /// The pool and the description are well formed, and the description is
    /// one of the pool's layout.
    pub open spec fn wf(&self) -> bool {
        &&& self.pool.wf()
        &&& self.inner.wf()
        &&& self.inner@.layout == self.pool@.layout
    }

    /// Builds a `FixedSizeDescriptorSet` from the builder.
    ///
    /// Build with `PoolEvent::Request`. A builder that has not dealt with
    /// every binding fails, and the pool is left alone. Otherwise the pool is
    /// told `event`, once. If it asks for a batch, the builder comes back
    /// unchanged: build again with the outcome, `PoolEvent::Created` or
    /// `PoolEvent::Failed`.
    pub fn build(self, event: PoolEvent) -> (action: FixedSizeBuildAction<'a>)
        requires
            self.wf(),
            old(self.pool)@.pool.admits(event@),
            event@ is Request || self@.complete(),
        ensures
            !self@.complete() ==> {
                &&& final(self.pool).wf()
                &&& final(self.pool)@ == old(self.pool)@
                &&& action matches FixedSizeBuildAction::Failed(error)
                &&& error == (PersistentDescriptorSetBuildError::MissingDescriptors {
                    expected: self@.layout.descriptors.len() as u32,
                    obtained: self@.binding_id as u32,
                })
            },
            self@.complete() ==> match old(self.pool)@.pool.action(event@) {
                ActionView::Allocated { alloc, retired } => {
                    &&& action matches FixedSizeBuildAction::Built { set, retired: gone }
                    &&& gone == retired
                    &&& set@ == (SetView { alloc, layout: self@.layout, writes: self@.writes })
                    &&& final(self.pool).wf()
                    &&& final(self.pool)@ == (FixedPoolView {
                        pool: old(self.pool)@.pool.after(event@),
                        ..old(self.pool)@
                    })
                },
                ActionView::Create { device, count } => {
                    &&& action matches FixedSizeBuildAction::Create {
                        builder,
                        device: on,
                        count: sets,
                    }
                    &&& on == device
                    &&& sets == count
                    &&& builder.wf()
                    &&& builder@ == self@
                    &&& builder.pool@ == old(self.pool)@
                    &&& *final(builder.pool) == *final(self.pool)
                },
                ActionView::Failed(error) => {
                    &&& action matches FixedSizeBuildAction::Failed(failure)
                    &&& failure == PersistentDescriptorSetBuildError::OomError(error)
                    &&& final(self.pool).wf()
                    &&& final(self.pool)@ == old(self.pool)@
                },
            },
    {
        let FixedSizeDescriptorSetBuilder { pool, inner } = self;
        match inner.build_with_pool(&mut pool.pool, event) {
            PersistentBuildAction::Built { set, retired } => FixedSizeBuildAction::Built {
                set: FixedSizeDescriptorSet { inner: set },
                retired,
            },
            PersistentBuildAction::Create { builder, device, count } => {
                FixedSizeBuildAction::Create {
                    builder: FixedSizeDescriptorSetBuilder { pool, inner: builder },
                    device,
                    count,
                }
            },
            PersistentBuildAction::Failed(error) => FixedSizeBuildAction::Failed(error),
        }
    }

    /// Call this function if the next element of the set is an array in order
    /// to set the value of each element.
    ///
    /// Returns an error if the descriptor is empty.
    ///
    /// This function can be called even if the descriptor isn't an array, and
    /// it is valid to enter the "array", add one element, then leave.
    pub fn enter_array(self) -> (result: Result<
        FixedSizeDescriptorSetBuilderArray<'a>,
        PersistentDescriptorSetError,
    >)
        requires
            self.wf(),
        ensures
            viewed(result) == self@.enter_array(),
            result matches Ok(next) ==> {
                &&& next.wf()
                &&& *next.pool == *old(self.pool)
                &&& *final(next.pool) == *final(self.pool)
            },
            result is Err ==> *final(self.pool) == *old(self.pool),
    {
        let FixedSizeDescriptorSetBuilder { pool, inner } = self;
        match inner.enter_array() {
            Ok(inner) => Ok(FixedSizeDescriptorSetBuilderArray { pool, inner }),
            Err(error) => Err(error),
        }
    }

    /// Skips the current descriptor if it is empty. Behind the last
    /// descriptor of the layout there is nothing to skip, and nothing changes.
    pub fn add_empty(self) -> (result: Result<
        FixedSizeDescriptorSetBuilder<'a>,
        PersistentDescriptorSetError,
    >)
        requires
            self.wf(),
        ensures
            viewed(result) == self@.add_empty(),
            result matches Ok(next) ==> {
                &&& next.wf()
                &&& *next.pool == *old(self.pool)
                &&& *final(next.pool) == *final(self.pool)
            },
            result is Err ==> *final(self.pool) == *old(self.pool),
    {
        let FixedSizeDescriptorSetBuilder { pool, inner } = self;
        match inner.add_empty() {
            Ok(inner) => Ok(FixedSizeDescriptorSetBuilder { pool, inner }),
            Err(error) => Err(error),
        }
    }

    /// Binds a buffer as the next descriptor.
    ///
    /// An error is returned if the buffer isn't compatible with the
    /// descriptor. The buffer must have the same device as the
    /// descriptor set layout.
    pub fn add_buffer(self, buffer: Resource) -> (result: Result<
        FixedSizeDescriptorSetBuilder<'a>,
        PersistentDescriptorSetError,
    >)
        requires
            self.wf(),
            buffer.device == self@.layout.device,
        ensures
            viewed(result) == self@.add(DescriptorWriteInner::Buffer { buffer: buffer.handle }),
            result matches Ok(next) ==> {
                &&& next.wf()
                &&& *next.pool == *old(self.pool)
                &&& *final(next.pool) == *final(self.pool)
            },
            result is Err ==> *final(self.pool) == *old(self.pool),
    {
        let FixedSizeDescriptorSetBuilder { pool, inner } = self;
        match inner.add_buffer(buffer) {
            Ok(inner) => Ok(FixedSizeDescriptorSetBuilder { pool, inner }),
            Err(error) => Err(error),
        }
    }

    /// Binds a buffer view as the next descriptor.
    ///
    /// An error is returned if the buffer view isn't compatible with the
    /// descriptor. The view must have the same device as the
    /// descriptor set layout.
    pub fn add_buffer_view(self, view: Resource) -> (result: Result<
        FixedSizeDescriptorSetBuilder<'a>,
        PersistentDescriptorSetError,
    >)
        requires
            self.wf(),
            view.device == self@.layout.device,
        ensures
            viewed(result) == self@.add(DescriptorWriteInner::TexelBuffer { view: view.handle }),
            result matches Ok(next) ==> {
                &&& next.wf()
                &&& *next.pool == *old(self.pool)
                &&& *final(next.pool) == *final(self.pool)
            },
            result is Err ==> *final(self.pool) == *old(self.pool),
    {
        let FixedSizeDescriptorSetBuilder { pool, inner } = self;
        match inner.add_buffer_view(view) {
            Ok(inner) => Ok(FixedSizeDescriptorSetBuilder { pool, inner }),
            Err(error) => Err(error),
        }
    }

    /// Binds an image view as the next descriptor.
    ///
    /// An error is returned if the image view isn't compatible with the
    /// descriptor. The view must have the same device as the
    /// descriptor set layout.
    pub fn add_image(self, image_view: Resource) -> (result: Result<
        FixedSizeDescriptorSetBuilder<'a>,
        PersistentDescriptorSetError,
    >)
        requires
            self.wf(),
            image_view.device == self@.layout.device,
        ensures
            viewed(result) == self@.add(
                DescriptorWriteInner::Image { image_view: image_view.handle },
            ),
            result matches Ok(next) ==> {
                &&& next.wf()
                &&& *next.pool == *old(self.pool)
                &&& *final(next.pool) == *final(self.pool)
            },
            result is Err ==> *final(self.pool) == *old(self.pool),
    {
        let FixedSizeDescriptorSetBuilder { pool, inner } = self;
        match inner.add_image(image_view) {
            Ok(inner) => Ok(FixedSizeDescriptorSetBuilder { pool, inner }),
            Err(error) => Err(error),
        }
    }

    /// Binds an image view with a sampler as the next descriptor.
    ///
    /// An error is returned if the image view isn't compatible with the
    /// descriptor. The view and the sampler must have the same device as the
    /// descriptor set layout.
    pub fn add_sampled_image(self, image_view: Resource, sampler: Resource) -> (result: Result<
        FixedSizeDescriptorSetBuilder<'a>,
        PersistentDescriptorSetError,
    >)
        requires
            self.wf(),
            image_view.device == self@.layout.device,
            sampler.device == self@.layout.device,
        ensures
            viewed(result) == self@.add(
            DescriptorWriteInner::CombinedImageSampler {
                image_view: image_view.handle,
                sampler: sampler.handle,
            },
        ),
            result matches Ok(next) ==> {
                &&& next.wf()
                &&& *next.pool == *old(self.pool)
                &&& *final(next.pool) == *final(self.pool)
            },
            result is Err ==> *final(self.pool) == *old(self.pool),
    {
        let FixedSizeDescriptorSetBuilder { pool, inner } = self;
        match inner.add_sampled_image(image_view, sampler) {
            Ok(inner) => Ok(FixedSizeDescriptorSetBuilder { pool, inner }),
            Err(error) => Err(error),
        }
    }

    /// Binds a sampler as the next descriptor.
    ///
    /// An error is returned if the sampler isn't compatible with the
    /// descriptor. The sampler must have the same device as the
    /// descriptor set layout.
    pub fn add_sampler(self, sampler: Resource) -> (result: Result<
        FixedSizeDescriptorSetBuilder<'a>,
        PersistentDescriptorSetError,
    >)
        requires
            self.wf(),
            sampler.device == self@.layout.device,
        ensures
            viewed(result) == self@.add(DescriptorWriteInner::Sampler { sampler: sampler.handle }),
            result matches Ok(next) ==> {
                &&& next.wf()
                &&& *next.pool == *old(self.pool)
                &&& *final(next.pool) == *final(self.pool)
            },
            result is Err ==> *final(self.pool) == *old(self.pool),
    {
        let FixedSizeDescriptorSetBuilder { pool, inner } = self;
        match inner.add_sampler(sampler) {
            Ok(inner) => Ok(FixedSizeDescriptorSetBuilder { pool, inner }),
            Err(error) => Err(error),
        }
    }
}

/// Same as `FixedSizeDescriptorSetBuilder`, but we're in an array.
pub struct FixedSizeDescriptorSetBuilderArray<'a> {
    /// The pool that the set will be taken from.
    pub pool: &'a mut FixedSizeDescriptorSetsPool,
    /// What was bound so far.
    pub inner: PersistentDescriptorSetBuilderArray,
}

impl<'a> View for FixedSizeDescriptorSetBuilderArray<'a> {
    type V = ArrayView;

    open spec fn view(&self) -> ArrayView {
        self.inner@
    }
}

impl<'a> FixedSizeDescriptorSetBuilderArray<'a> {
    /// The pool and the description are well formed, and the description is
    /// one of the pool's layout.
    pub open spec fn wf(&self) -> bool {
        &&& self.pool.wf()
        &&& self.inner.wf()
        &&& self.inner@.builder.layout == self.pool@.layout
    }

    /// Leaves the array. Call this once you added all the elements of the
    /// array.
    pub fn leave_array(self) -> (result: Result<
        FixedSizeDescriptorSetBuilder<'a>,
        PersistentDescriptorSetError,
    >)
        requires
            self.wf(),
        ensures
            viewed(result) == self@.leave_array(),
            result matches Ok(next) ==> {
                &&& next.wf()
                &&& *next.pool == *old(self.pool)
                &&& *final(next.pool) == *final(self.pool)
            },
            result is Err ==> *final(self.pool) == *old(self.pool),
    {
        let FixedSizeDescriptorSetBuilderArray { pool, inner } = self;
        match inner.leave_array() {
            Ok(inner) => Ok(FixedSizeDescriptorSetBuilder { pool, inner }),
            Err(error) => Err(error),
        }
    }

    /// Binds a buffer as the next element in the array.
    ///
    /// An error is returned if the buffer isn't compatible with the
    /// descriptor. The buffer must have the same device as the
    /// descriptor set layout.
    pub fn add_buffer(self, buffer: Resource) -> (result: Result<
        FixedSizeDescriptorSetBuilderArray<'a>,
        PersistentDescriptorSetError,
    >)
        requires
            self.wf(),
            buffer.device == self@.builder.layout.device,
        ensures
            viewed(result) == self@.add(DescriptorWriteInner::Buffer { buffer: buffer.handle }),
            result matches Ok(next) ==> {
                &&& next.wf()
                &&& *next.pool == *old(self.pool)
                &&& *final(next.pool) == *final(self.pool)
            },
            result is Err ==> *final(self.pool) == *old(self.pool),
    {
        let FixedSizeDescriptorSetBuilderArray { pool, inner } = self;
        match inner.add_buffer(buffer) {
            Ok(inner) => Ok(FixedSizeDescriptorSetBuilderArray { pool, inner }),
            Err(error) => Err(error),
        }
    }

    /// Binds a buffer view as the next element in the array.
    ///
    /// An error is returned if the buffer view isn't compatible with the
    /// descriptor. The view must have the same device as the
    /// descriptor set layout.
    pub fn add_buffer_view(self, view: Resource) -> (result: Result<
        FixedSizeDescriptorSetBuilderArray<'a>,
        PersistentDescriptorSetError,
    >)
        requires
            self.wf(),
            view.device == self@.builder.layout.device,
        ensures
            viewed(result) == self@.add(DescriptorWriteInner::TexelBuffer { view: view.handle }),
            result matches Ok(next) ==> {
                &&& next.wf()
                &&& *next.pool == *old(self.pool)
                &&& *final(next.pool) == *final(self.pool)
            },
            result is Err ==> *final(self.pool) == *old(self.pool),
    {
        let FixedSizeDescriptorSetBuilderArray { pool, inner } = self;
        match inner.add_buffer_view(view) {
            Ok(inner) => Ok(FixedSizeDescriptorSetBuilderArray { pool, inner }),
            Err(error) => Err(error),
        }
    }

    /// Binds an image view as the next element in the array.
    ///
    /// An error is returned if the image view isn't compatible with the
    /// descriptor. The view must have the same device as the
    /// descriptor set layout.
    pub fn add_image(self, image_view: Resource) -> (result: Result<
        FixedSizeDescriptorSetBuilderArray<'a>,
        PersistentDescriptorSetError,
    >)
        requires
            self.wf(),
            image_view.device == self@.builder.layout.device,
        ensures
            viewed(result) == self@.add(
                DescriptorWriteInner::Image { image_view: image_view.handle },
            ),
            result matches Ok(next) ==> {
                &&& next.wf()
                &&& *next.pool == *old(self.pool)
                &&& *final(next.pool) == *final(self.pool)
            },
            result is Err ==> *final(self.pool) == *old(self.pool),
    {
        let FixedSizeDescriptorSetBuilderArray { pool, inner } = self;
        match inner.add_image(image_view) {
            Ok(inner) => Ok(FixedSizeDescriptorSetBuilderArray { pool, inner }),
            Err(error) => Err(error),
        }
    }

    /// Binds an image view with a sampler as the next element in the array.
    ///
    /// An error is returned if the image view isn't compatible with the
    /// descriptor. The view and the sampler must have the same device as the
    /// descriptor set layout.
    pub fn add_sampled_image(self, image_view: Resource, sampler: Resource) -> (result: Result<
        FixedSizeDescriptorSetBuilderArray<'a>,
        PersistentDescriptorSetError,
    >)
        requires
            self.wf(),
            image_view.device == self@.builder.layout.device,
            sampler.device == self@.builder.layout.device,
        ensures
            viewed(result) == self@.add(
            DescriptorWriteInner::CombinedImageSampler {
                image_view: image_view.handle,
                sampler: sampler.handle,
            },
        ),
            result matches Ok(next) ==> {
                &&& next.wf()
                &&& *next.pool == *old(self.pool)
                &&& *final(next.pool) == *final(self.pool)
            },
            result is Err ==> *final(self.pool) == *old(self.pool),
    {
        let FixedSizeDescriptorSetBuilderArray { pool, inner } = self;
        match inner.add_sampled_image(image_view, sampler) {
            Ok(inner) => Ok(FixedSizeDescriptorSetBuilderArray { pool, inner }),
            Err(error) => Err(error),
        }
    }

    /// Binds a sampler as the next element in the array.
    ///
    /// An error is returned if the sampler isn't compatible with the
    /// descriptor. The sampler must have the same device as the
    /// descriptor set layout.
    pub fn add_sampler(self, sampler: Resource) -> (result: Result<
        FixedSizeDescriptorSetBuilderArray<'a>,
        PersistentDescriptorSetError,
    >)
        requires
            self.wf(),
            sampler.device == self@.builder.layout.device,
        ensures
            viewed(result) == self@.add(DescriptorWriteInner::Sampler { sampler: sampler.handle }),
            result matches Ok(next) ==> {
                &&& next.wf()
                &&& *next.pool == *old(self.pool)
                &&& *final(next.pool) == *final(self.pool)
            },
            result is Err ==> *final(self.pool) == *old(self.pool),
    {
        let FixedSizeDescriptorSetBuilderArray { pool, inner } = self;
        match inner.add_sampler(sampler) {
            Ok(inner) => Ok(FixedSizeDescriptorSetBuilderArray { pool, inner }),
            Err(error) => Err(error),
        }
    }
}

/// One descriptor set on loan from a `LocalPool`.
///
/// The value is neither `Clone` nor `Copy`, and only `LocalPool::allocate` makes
/// one: handing it to `LocalPool::release` is the one way to end the loan, and
/// it can be done once.
#[derive(Debug)]
pub struct LocalPoolAlloc {
    // The place, in the pool, of the chunk that the set was allocated from.
    // The set is put back there when the allocation is released.
    pool: usize,
    // The actual descriptor set.
    actual_alloc: u64,
}

impl View for LocalPoolAlloc {
    type V = AllocView;

    closed spec fn view(&self) -> AllocView {
        AllocView { chunk: self.pool as int, set: self.actual_alloc }
    }
}

impl LocalPoolAlloc {
    /// The descriptor set.
    pub fn inner(&self) -> (set: u64)
        ensures
            set == self@.set,
    {
        self.actual_alloc
    }

    /// The place of the chunk that the set was drawn from.
    pub fn chunk(&self) -> (chunk: usize)
        ensures
            chunk == self@.chunk,
    {
        self.pool
    }
}

/// What a `LocalPool` is told in a call of `allocate`.
#[derive(Debug)]
pub enum PoolEvent {
    /// A caller asks for a descriptor set.
    Request,
    /// The batch that the pool asked for was created: `batch` is the token
    /// that owns it, `sets` are its descriptor sets.
    Created { batch: u64, sets: Vec<u64> },
    /// The batch that the pool asked for could not be created.
    Failed(DescriptorPoolAllocError),
}

impl View for PoolEvent {
    type V = EventView;

    open spec fn view(&self) -> EventView {
        match *self {
            PoolEvent::Request => EventView::Request,
            PoolEvent::Created { batch, sets } => EventView::Created { batch, sets: sets@ },
            PoolEvent::Failed(error) => EventView::Failed(error),
        }
    }
}

/// What a `LocalPool` answers in a call of `allocate`.
#[derive(Debug)]
pub enum PoolAction {
    /// The descriptor set in `alloc` is on loan to the caller. If `retired`
    /// names a batch, the chunk that owned it is gone and the batch can be
    /// destroyed.
    Allocated { alloc: LocalPoolAlloc, retired: Option<u64> },
    /// A batch of `count` descriptor sets is to be created on `device`, and
    /// the outcome handed to the next call of `allocate`.
    Create { device: u64, count: u32 },
    /// No descriptor set could be allocated.
    Failed(OomError),
}

impl View for PoolAction {
    type V = ActionView;

    open spec fn view(&self) -> ActionView {
        match *self {
            PoolAction::Allocated { alloc, retired } => ActionView::Allocated {
                alloc: alloc@,
                retired,
            },
            PoolAction::Create { device, count } => ActionView::Create { device, count },
            PoolAction::Failed(error) => ActionView::Failed(error),
        }
    }
}

/// The pool proper: its chunks, the one that is current, and the size of the
/// next batch.
pub struct LocalPool {
    // Every chunk that the pool created, in the order of creation. A chunk
    // that is neither current nor referred to by an allocation is dropped,
    // which leaves `None` in its place.
    pools: Vec<Option<LocalPoolInner>>,
    // The place of the chunk that requests are served from. Every time it is
    // exhausted, a new batch is asked for and takes its place.
    current_pool: Option<usize>,
    // Capacity to use when a new batch is created.
    next_capacity: u32,
    // The device.
    device: u64,
}

impl View for LocalPool {
    type V = PoolView;

    closed spec fn view(&self) -> PoolView {
        PoolView {
            device: self.device,
            chunks: Seq::new(
                self.pools@.len(),
                |i: int|
                    match self.pools@[i] {
                        Some(chunk) => Some(chunk@),
                        None => None,
                    },
            ),
            current: match self.current_pool {
                Some(i) => Some(i as int),
                None => None,
            },
            next_capacity: self.next_capacity,
        }
    }
}

impl LocalPool {
    /// The pool's view is well formed, and each living chunk keeps its
    /// counters up to date.
    pub open spec fn wf(&self) -> bool {
        &&& self@.wf()
        &&& self.counted()
    }

    /// Each living chunk is well formed.
    pub closed spec fn counted(&self) -> bool {
        forall|i: int|
            0 <= i < self.pools@.len() ==> (#[trigger] self.pools@[i] matches Some(chunk)
                ==> chunk.wf())
    }

    /// A pool on `device` that has created nothing yet. Its first batch will
    /// hold three descriptor sets.
    pub fn new(device: u64) -> (pool: LocalPool)
        ensures
            pool.wf(),
            pool@ == PoolView::fresh(device),
    {
        let pool = LocalPool {
            pools: Vec::new(),
            current_pool: None,
            next_capacity: FIRST_CAPACITY,
            device,
        };
        proof {
            PoolView::lemma_fresh(device);
            assert(pool@.chunks =~= Seq::empty());
        }
        pool
    }

    /// The device on which the pool's batches are created.
    pub fn device(&self) -> (device: u64)
        ensures
            device == self@.device,
    {
        self.device
    }

    /// The number of descriptor sets that the next batch will hold.
    pub fn next_capacity(&self) -> (count: u32)
        ensures
            count == self@.next_capacity,
    {
        self.next_capacity
    }

    /// The place of the current chunk, if there is one yet.
    pub fn current_pool(&self) -> (current: Option<usize>)
        ensures
            match current {
                Some(i) => self@.current == Some(i as int),
                None => self@.current is None,
            },
    {
        self.current_pool
    }

    // Takes the first free set of the current chunk, if there is one.
    fn take_current(&mut self) -> (alloc: Option<LocalPoolAlloc>)
        requires
            old(self).wf(),
        ensures
            final(self).wf(),
            old(self)@.can_serve() ==> final(self)@ == old(self)@.serve() && alloc is Some
                && alloc.unwrap()@ == old(self)@.served(),
            !old(self)@.can_serve() ==> final(self)@ == old(self)@ && alloc is None,
    {
        match self.current_pool {
            Some(at) => {
                let taken = match &mut self.pools[at] {
                    Some(chunk) => chunk.take(),
                    None => None,
                };
                match taken {
                    Some(set) => {
                        proof {
                            old(self)@.lemma_serve();
                            assert(self@.chunks =~= old(self)@.serve().chunks);
                        }
                        Some(LocalPoolAlloc { pool: at, actual_alloc: set })
                    },
                    None => {
                        proof {
                            assert(self@.chunks =~= old(self)@.chunks);
                        }
                        None
                    },
                }
            },
            None => None,
        }
    }

    // Makes a new batch the current chunk. The chunk that was current is
    // dropped if no allocation holds a set of it.
    fn install(&mut self, batch: u64, sets: Vec<u64>) -> (retired: Option<u64>)
        requires
            old(self).wf(),
            old(self)@.admits(EventView::Created { batch, sets: sets@ }),
        ensures
            final(self).wf(),
            final(self)@ == old(self)@.install(batch, sets@),
            retired == old(self)@.retired_by_install(),
    {
        proof {
            old(self)@.lemma_install(batch, sets@);
        }
        let retired = match self.current_pool {
            Some(at) => {
                let unreferenced = match &self.pools[at] {
                    Some(chunk) => chunk.is_unreferenced(),
                    None => false,
                };
                if unreferenced {
                    match self.pools[at].take() {
                        Some(chunk) => Some(chunk.batch()),
                        None => None,
                    }
                } else {
                    None
                }
            },
            None => None,
        };
        let chunk = LocalPoolInner::new(batch, sets);
        self.pools.push(Some(chunk));
        self.current_pool = Some(self.pools.len() - 1);
        self.next_capacity = grown(self.next_capacity);
        proof {
            assert(self@.chunks =~= old(self)@.install(batch, sets@).chunks);
        }
        retired
    }

    /// Tells the pool `event` and returns its answer.
    ///
    /// To get a descriptor set, call with `PoolEvent::Request`. The pool
    /// either lends the first free set of its current chunk, or, if it has
    /// none, asks for a batch of `next_capacity` sets and changes nothing.
    /// Create the batch and call again, with `PoolEvent::Created` or
    /// `PoolEvent::Failed`. A new batch becomes the current chunk, the size of
    /// the next batch doubles, and the first set of the batch goes on loan. A
    /// failure comes back as the error to report and leaves the pool as it
    /// was, so that the next request asks for a batch of the same size.
    pub fn allocate(&mut self, event: PoolEvent) -> (action: PoolAction)
        requires
            old(self).wf(),
            old(self)@.admits(event@),
        ensures
            final(self).wf(),
            final(self)@ == old(self)@.after(event@),
            action@ == old(self)@.action(event@),
    {
        match event {
            PoolEvent::Request => match self.take_current() {
                Some(alloc) => PoolAction::Allocated { alloc, retired: None },
                None => PoolAction::Create { device: self.device, count: self.next_capacity },
            },
            PoolEvent::Created { batch, sets } => {
                proof {
                    old(self)@.lemma_install(batch, sets@);
                }
                let retired = self.install(batch, sets);
                // A batch holds three sets or more, so the first arm is taken.
                match self.take_current() {
                    Some(alloc) => PoolAction::Allocated { alloc, retired },
                    None => PoolAction::Create { device: self.device, count: self.next_capacity },
                }
            },
            PoolEvent::Failed(error) => PoolAction::Failed(error.into_oom()),
        }
    }

    /// Ends the loan of `alloc`: its descriptor set goes back to the reserve
    /// of the chunk that it was drawn from, behind the sets that wait there.
    ///
    /// If that chunk is not the current one and this was its last set on loan,
    /// the chunk is dropped, and the batch that it owned is returned: it can
    /// be destroyed.
    pub fn release(&mut self, alloc: LocalPoolAlloc) -> (retired: Option<u64>)
        requires
            old(self).wf(),
            old(self)@.holds(alloc@),
        ensures
            final(self).wf(),
            final(self)@ == old(self)@.release(alloc@),
            retired == old(self)@.retired_by_release(alloc@),
    {
        let at = alloc.pool;
        proof {
            old(self)@.lemma_release(alloc@);
        }
        let unreferenced = match &mut self.pools[at] {
            Some(chunk) => {
                chunk.give_back(alloc.actual_alloc);
                chunk.is_unreferenced()
            },
            None => false,
        };
        let current = match self.current_pool {
            Some(i) => i == at,
            None => false,
        };
        let retired = if unreferenced && !current {
            match self.pools[at].take() {
                Some(chunk) => Some(chunk.batch()),
                None => None,
            }
        } else {
            None
        };
        proof {
            assert(self@.chunks =~= old(self)@.release(alloc@).chunks);
        }
        retired
    }

    /// The number of chunks that the pool created so far.
    pub fn num_created(&self) -> (count: usize)
        ensures
            count == self@.chunks.len(),
    {
        self.pools.len()
    }

    /// Whether the chunk at place `chunk` exists and was not destroyed.
    pub fn is_alive(&self, chunk: usize) -> (alive: bool)
        ensures
            alive == self@.chunk(chunk as int) is Some,
    {
        if chunk < self.pools.len() {
            self.pools[chunk].is_some()
        } else {
            false
        }
    }

    /// The number of free descriptor sets in the chunk at place `chunk`, or
    /// `None` if there is no living chunk at that place.
    pub fn available(&self, chunk: usize) -> (free: Option<u32>)
        requires
            self.wf(),
        ensures
            match free {
                Some(count) => self@.chunk(chunk as int) is Some && count == self@.chunk(
                    chunk as int,
                ).unwrap().available.len(),
                None => self@.chunk(chunk as int) is None,
            },
    {
        if chunk < self.pools.len() {
            match &self.pools[chunk] {
                Some(inner) => Some(inner.available()),
                None => None,
            }
        } else {
            None
        }
    }

    /// The number of descriptor sets on loan from the chunk at place `chunk`,
    /// or `None` if there is no living chunk at that place.
    pub fn on_loan(&self, chunk: usize) -> (loaned: Option<u32>)
        requires
            self.wf(),
        ensures
            match loaned {
                Some(count) => self@.chunk(chunk as int) is Some && count == self@.chunk(
                    chunk as int,
                ).unwrap().loaned.len(),
                None => self@.chunk(chunk as int) is None,
            },
    {
        if chunk < self.pools.len() {
            match &self.pools[chunk] {
                Some(inner) => Some(inner.on_loan()),
                None => None,
            }
        } else {
            None
        }
    }
}

} // verus!
