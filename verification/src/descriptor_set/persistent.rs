//! Descriptor sets that are described binding by binding and then built.
//!
//! A builder walks the bindings of a layout in their order. Each step binds
//! one resource, skips an empty binding, or enters and leaves an array. What
//! was bound is kept as a list of writes. Building takes one descriptor set
//! from a pool and hands it out together with the writes.

use crate::descriptor_set::fixed_size_pool::{LocalPool, LocalPoolAlloc, PoolAction, PoolEvent};
use crate::descriptor_set::layout::{
    DescriptorDesc, DescriptorSetLayout, DescriptorType, LayoutView,
};
use crate::descriptor_set::pool::OomError;
use crate::descriptor_set::state::{ActionView, AllocView, EventView};
use std::sync::Arc;
use vstd::prelude::*;

verus! {

/// A buffer, a buffer view, an image view or a sampler, as far as a
/// descriptor set is concerned: the device that it was created on and its
/// handle.
#[derive(Clone, Copy, Debug, PartialEq, Eq, Structural)]
pub struct Resource {
    /// The device that the resource was created on.
    pub device: u64,
    /// The handle of the resource.
    pub handle: u64,
}

/// What is written into one element of a descriptor.
#[derive(Clone, Copy, Debug, PartialEq, Eq, Structural)]
pub enum DescriptorWriteInner {
    /// A sampler.
    Sampler { sampler: u64 },
    /// An image view with the sampler to read it with.
    CombinedImageSampler { image_view: u64, sampler: u64 },
    /// An image view.
    Image { image_view: u64 },
    /// A buffer view.
    TexelBuffer { view: u64 },
    /// A buffer.
    Buffer { buffer: u64 },
}

impl DescriptorWriteInner {
    /// The kind of descriptor that takes this write.
    pub open spec fn ty(self) -> DescriptorType {
        match self {
            DescriptorWriteInner::Sampler { .. } => DescriptorType::Sampler,
            DescriptorWriteInner::CombinedImageSampler { .. } => {
                DescriptorType::CombinedImageSampler
            },
            DescriptorWriteInner::Image { .. } => DescriptorType::Image,
            DescriptorWriteInner::TexelBuffer { .. } => DescriptorType::TexelBuffer,
            DescriptorWriteInner::Buffer { .. } => DescriptorType::Buffer,
        }
    }

    /// The kind of descriptor that takes this write.
    pub fn descriptor_type(&self) -> (ty: DescriptorType)
        ensures
            ty == self.ty(),
    {
        match self {
            DescriptorWriteInner::Sampler { .. } => DescriptorType::Sampler,
            DescriptorWriteInner::CombinedImageSampler { .. } => {
                DescriptorType::CombinedImageSampler
            },
            DescriptorWriteInner::Image { .. } => DescriptorType::Image,
            DescriptorWriteInner::TexelBuffer { .. } => DescriptorType::TexelBuffer,
            DescriptorWriteInner::Buffer { .. } => DescriptorType::Buffer,
        }
    }
}

/// One resource bound to one element of one binding.
#[derive(Clone, Copy, Debug, PartialEq, Eq, Structural)]
pub struct DescriptorWrite {
    /// The number of the binding.
    pub binding: u32,
    /// The element of the binding's array.
    pub array_element: u32,
    /// What is bound.
    pub inner: DescriptorWriteInner,
}

/// Error related to the description of a descriptor set.
#[derive(Clone, Copy, Debug, PartialEq, Eq, Structural)]
#[allow(inconsistent_fields)]
pub enum PersistentDescriptorSetError {
    /// The binding is empty: it takes nothing.
    EmptyExpected,
    /// Tried to add more elements to an array than it has.
    ArrayOutOfBounds,
    /// Left an array before all its elements were added.
    MissingArrayElements {
        /// The number of elements of the array.
        expected: u32,
        /// The number of elements that were added.
        obtained: u32,
    },
    /// The binding takes another kind of resource.
    WrongDescriptorTy {
        /// The kind that the binding takes.
        expected: DescriptorType,
    },
}

/// Error when building a descriptor set.
#[derive(Clone, Copy, Debug, PartialEq, Eq, Structural)]
pub enum PersistentDescriptorSetBuildError {
    /// Out of memory.
    OomError(OomError),
    /// Not every binding of the layout was dealt with.
    MissingDescriptors {
        /// The number of bindings of the layout.
        expected: u32,
        /// The number of bindings that were dealt with.
        obtained: u32,
    },
}

/// What a builder is, as plain values.
pub struct BuilderView {
    /// The layout that is being filled.
    pub layout: LayoutView,
    /// The number of the binding that comes next.
    pub binding_id: nat,
    /// What was bound so far, in the order of binding.
    pub writes: Seq<DescriptorWrite>,
}

/// What a builder inside an array is, as plain values.
pub struct ArrayView {
    /// The builder that entered the array.
    pub builder: BuilderView,
    /// The descriptor that the array belongs to.
    pub desc: DescriptorDesc,
    /// The element that comes next.
    pub array_element: nat,
}

/// What a built descriptor set is, as plain values.
pub struct SetView {
    /// The loan from the pool.
    pub alloc: AllocView,
    /// The layout of the set.
    pub layout: LayoutView,
    /// What is bound in the set.
    pub writes: Seq<DescriptorWrite>,
}

/// The outcome of a step with the builder that it returns seen as plain
/// values.
pub open spec fn viewed<T: View, E>(result: Result<T, E>) -> Result<T::V, E> {
    match result {
        Ok(value) => Ok(value@),
        Err(error) => Err(error),
    }
}

impl BuilderView {
    /// The builder that has bound nothing yet.
    pub open spec fn start(layout: LayoutView) -> BuilderView {
        BuilderView { layout, binding_id: 0, writes: Seq::empty() }
    }

    /// The descriptor that comes next, if that binding is not empty.
    pub open spec fn current(self) -> Option<DescriptorDesc> {
        self.layout.descriptor(self.binding_id as int)
    }

    /// Entering the array of the next binding. An empty binding has none.
    pub open spec fn enter_array(self) -> Result<ArrayView, PersistentDescriptorSetError> {
        match self.current() {
            Some(desc) => Ok(ArrayView { builder: self, desc, array_element: 0 }),
            None => Err(PersistentDescriptorSetError::EmptyExpected),
        }
    }

    /// Skipping the next binding, which has to be empty. Behind the last
    /// binding there is nothing left to skip.
    pub open spec fn add_empty(self) -> Result<BuilderView, PersistentDescriptorSetError> {
        match self.current() {
            Some(desc) => Err(
                PersistentDescriptorSetError::WrongDescriptorTy { expected: desc.ty },
            ),
            None => if self.complete() {
                Ok(self)
            } else {
                Ok(BuilderView { binding_id: self.binding_id + 1, ..self })
            },
        }
    }

    /// Binding one resource as the whole next binding: entering its array,
    /// adding the resource and leaving.
    pub open spec fn add(self, inner: DescriptorWriteInner) -> Result<
        BuilderView,
        PersistentDescriptorSetError,
    > {
        match self.enter_array() {
            Ok(array) => match array.add(inner) {
                Ok(filled) => filled.leave_array(),
                Err(error) => Err(error),
            },
            Err(error) => Err(error),
        }
    }

    /// Whether every binding of the layout was dealt with.
    pub open spec fn complete(self) -> bool {
        self.binding_id >= self.layout.descriptors.len()
    }
}

impl ArrayView {
    /// Binding a resource as the next element. The array must have an element
    /// left, and the descriptor must take this kind of resource.
    pub open spec fn add(self, inner: DescriptorWriteInner) -> Result<
        ArrayView,
        PersistentDescriptorSetError,
    > {
        if self.array_element >= self.desc.array_count {
            Err(PersistentDescriptorSetError::ArrayOutOfBounds)
        } else if self.desc.ty != inner.ty() {
            Err(PersistentDescriptorSetError::WrongDescriptorTy { expected: self.desc.ty })
        } else {
            Ok(
                ArrayView {
                    builder: BuilderView {
                        writes: self.builder.writes.push(
                            DescriptorWrite {
                                binding: self.builder.binding_id as u32,
                                array_element: self.array_element as u32,
                                inner,
                            },
                        ),
                        ..self.builder
                    },
                    array_element: self.array_element + 1,
                    ..self
                },
            )
        }
    }

    /// Leaving the array, which must have all its elements.
    pub open spec fn leave_array(self) -> Result<BuilderView, PersistentDescriptorSetError> {
        if self.desc.array_count > self.array_element {
            Err(
                PersistentDescriptorSetError::MissingArrayElements {
                    expected: self.desc.array_count,
                    obtained: self.array_element as u32,
                },
            )
        } else {
            Ok(BuilderView { binding_id: self.builder.binding_id + 1, ..self.builder })
        }
    }
}

/// A descriptor set from a pool, with the resources that are bound in it.
#[derive(Debug)]
pub struct PersistentDescriptorSet {
    inner: LocalPoolAlloc,
    writes: Vec<DescriptorWrite>,
    layout: Arc<DescriptorSetLayout>,
}

impl View for PersistentDescriptorSet {
    type V = SetView;

    closed spec fn view(&self) -> SetView {
        SetView { alloc: self.inner@, layout: self.layout@, writes: self.writes@ }
    }
}

impl PersistentDescriptorSet {
    /// Starts the process of building a descriptor set of the given layout.
    pub fn start(layout: Arc<DescriptorSetLayout>) -> (builder: PersistentDescriptorSetBuilder)
        requires
            layout.wf(),
        ensures
            builder.wf(),
            builder@ == BuilderView::start(layout@),
    {
        PersistentDescriptorSetBuilder { layout, binding_id: 0, writes: Vec::new() }
    }

    /// The loan that the set rests on.
    pub fn inner(&self) -> (alloc: &LocalPoolAlloc)
        ensures
            alloc@ == self@.alloc,
    {
        &self.inner
    }

    /// Gives up the description and returns the loan, which can then be
    /// released to the pool.
    pub fn into_inner(self) -> (alloc: LocalPoolAlloc)
        ensures
            alloc@ == self@.alloc,
    {
        self.inner
    }

    /// The layout of the set.
    pub fn layout(&self) -> (layout: &Arc<DescriptorSetLayout>)
        ensures
            layout@ == self@.layout,
    {
        &self.layout
    }

    /// The device that the set belongs to.
    pub fn device(&self) -> (device: u64)
        ensures
            device == self@.layout.device,
    {
        self.layout.device()
    }

    /// What is bound in the set, in the order of binding.
    pub fn writes(&self) -> (writes: &Vec<DescriptorWrite>)
        ensures
            writes@ == self@.writes,
    {
        &self.writes
    }
}

/// Prototype of a `PersistentDescriptorSet`.
#[derive(Debug)]
pub struct PersistentDescriptorSetBuilder {
    // The descriptor set layout.
    layout: Arc<DescriptorSetLayout>,
    // Binding that comes next.
    binding_id: u32,
    // The writes to perform on the set once it exists.
    writes: Vec<DescriptorWrite>,
}

impl View for PersistentDescriptorSetBuilder {
    type V = BuilderView;

    closed spec fn view(&self) -> BuilderView {
        BuilderView {
            layout: self.layout@,
            binding_id: self.binding_id as nat,
            writes: self.writes@,
        }
    }
}

/// What the building of a descriptor set came to.
#[derive(Debug)]
pub enum PersistentBuildAction {
    /// The set is built. If `retired` names a batch, the chunk that owned it
    /// is gone and the batch can be destroyed.
    Built { set: PersistentDescriptorSet, retired: Option<u64> },
    /// The pool has no free set. A batch of `count` sets is to be created on
    /// `device`; then `builder` builds again, with the outcome.
    Create { builder: PersistentDescriptorSetBuilder, device: u64, count: u32 },
    /// The set cannot be built.
    Failed(PersistentDescriptorSetBuildError),
}

impl PersistentDescriptorSetBuilder {
    /// The layout's bindings can be numbered with a `u32`.
    pub closed spec fn wf(&self) -> bool {
        self.layout.wf()
    }

    /// Builds the descriptor set: takes a set from `pool` and joins it with
    /// what was bound.
    ///
    /// Build with `PoolEvent::Request`. A builder that has not dealt with
    /// every binding fails, and the pool is left alone. Otherwise the pool is
    /// told `event`, once. If it asks for a batch, the builder comes back
    /// unchanged: build again with the outcome, `PoolEvent::Created` or
    /// `PoolEvent::Failed`.
    pub fn build_with_pool(self, pool: &mut LocalPool, event: PoolEvent) -> (action:
        PersistentBuildAction)
        requires
            self.wf(),
            old(pool).wf(),
            old(pool)@.device == self@.layout.device,
            old(pool)@.admits(event@),
            event@ is Request || self@.complete(),
        ensures
            final(pool).wf(),
            !self@.complete() ==> {
                &&& final(pool)@ == old(pool)@
                &&& action == PersistentBuildAction::Failed(
                    PersistentDescriptorSetBuildError::MissingDescriptors {
                        expected: self@.layout.descriptors.len() as u32,
                        obtained: self@.binding_id as u32,
                    },
                )
            },
            self@.complete() ==> final(pool)@ == old(pool)@.after(event@),
            self@.complete() ==> match old(pool)@.action(event@) {
                ActionView::Allocated { alloc, retired } => {
                    &&& action matches PersistentBuildAction::Built { set, retired: gone }
                    &&& gone == retired
                    &&& set@ == (SetView { alloc, layout: self@.layout, writes: self@.writes })
                },
                ActionView::Create { device, count } => {
                    &&& action matches PersistentBuildAction::Create {
                        builder,
                        device: on,
                        count: sets,
                    }
                    &&& on == device
                    &&& sets == count
                    &&& builder.wf()
                    &&& builder@ == self@
                },
                ActionView::Failed(error) => action == PersistentBuildAction::Failed(
                    PersistentDescriptorSetBuildError::OomError(error),
                ),
            },
    {
        let expected = self.layout.num_bindings();
        if expected > self.binding_id {
            return PersistentBuildAction::Failed(
                PersistentDescriptorSetBuildError::MissingDescriptors {
                    expected,
                    obtained: self.binding_id,
                },
            );
        }
        match pool.allocate(event) {
            PoolAction::Allocated { alloc, retired } => PersistentBuildAction::Built {
                set: PersistentDescriptorSet {
                    inner: alloc,
                    writes: self.writes,
                    layout: self.layout,
                },
                retired,
            },
            PoolAction::Create { device, count } => PersistentBuildAction::Create {
                builder: self,
                device,
                count,
            },
            PoolAction::Failed(error) => PersistentBuildAction::Failed(
                PersistentDescriptorSetBuildError::OomError(error),
            ),
        }
    }

    /// Call this function if the next element of the set is an array in order
    /// to set the value of each element.
    ///
    /// Returns an error if the descriptor is empty.
    ///
    /// This function can be called even if the descriptor isn't an array, and
    /// it is valid to enter the "array", add one element, then leave.
    pub fn enter_array(self) -> (result: Result<
        PersistentDescriptorSetBuilderArray,
        PersistentDescriptorSetError,
    >)
        requires
            self.wf(),
        ensures
            viewed(result) == self@.enter_array(),
            result matches Ok(array) ==> array.wf(),
    {
        match self.layout.descriptor(self.binding_id) {
            Some(desc) => Ok(
                PersistentDescriptorSetBuilderArray { builder: self, desc, array_element: 0 },
            ),
            None => Err(PersistentDescriptorSetError::EmptyExpected),
        }
    }

    /// Skips the current descriptor if it is empty. Behind the last
    /// descriptor of the layout there is nothing to skip, and nothing changes.
    pub fn add_empty(self) -> (result: Result<
        PersistentDescriptorSetBuilder,
        PersistentDescriptorSetError,
    >)
        requires
            self.wf(),
        ensures
            viewed(result) == self@.add_empty(),
            result matches Ok(builder) ==> builder.wf(),
    {
        match self.layout.descriptor(self.binding_id) {
            Some(desc) => Err(
                PersistentDescriptorSetError::WrongDescriptorTy { expected: desc.ty },
            ),
            None => if self.binding_id < self.layout.num_bindings() {
                Ok(
                    PersistentDescriptorSetBuilder {
                        layout: self.layout,
                        binding_id: self.binding_id + 1,
                        writes: self.writes,
                    },
                )
            } else {
                Ok(self)
            },
        }
    }

    // Binds one resource as the whole next binding.
    fn add(self, inner: DescriptorWriteInner) -> (result: Result<
        PersistentDescriptorSetBuilder,
        PersistentDescriptorSetError,
    >)
        requires
            self.wf(),
        ensures
            viewed(result) == self@.add(inner),
            result matches Ok(builder) ==> builder.wf(),
    {
        match self.enter_array() {
            Ok(array) => match array.add(inner) {
                Ok(filled) => filled.leave_array(),
                Err(error) => Err(error),
            },
            Err(error) => Err(error),
        }
    }

    /// Binds a buffer as the next descriptor.
    ///
    /// An error is returned if the buffer isn't compatible with the
    /// descriptor. The buffer must have the same device as the descriptor set
    /// layout.
    pub fn add_buffer(self, buffer: Resource) -> (result: Result<
        PersistentDescriptorSetBuilder,
        PersistentDescriptorSetError,
    >)
        requires
            self.wf(),
            buffer.device == self@.layout.device,
        ensures
            viewed(result) == self@.add(DescriptorWriteInner::Buffer { buffer: buffer.handle }),
            result matches Ok(builder) ==> builder.wf(),
    {
        self.add(DescriptorWriteInner::Buffer { buffer: buffer.handle })
    }

    /// Binds a buffer view as the next descriptor.
    ///
    /// An error is returned if the buffer view isn't compatible with the
    /// descriptor. The view must have the same device as the descriptor set
    /// layout.
    pub fn add_buffer_view(self, view: Resource) -> (result: Result<
        PersistentDescriptorSetBuilder,
        PersistentDescriptorSetError,
    >)
        requires
            self.wf(),
            view.device == self@.layout.device,
        ensures
            viewed(result) == self@.add(DescriptorWriteInner::TexelBuffer { view: view.handle }),
            result matches Ok(builder) ==> builder.wf(),
    {
        self.add(DescriptorWriteInner::TexelBuffer { view: view.handle })
    }

    /// Binds an image view as the next descriptor.
    ///
    /// An error is returned if the image view isn't compatible with the
    /// descriptor. The view must have the same device as the descriptor set
    /// layout.
    pub fn add_image(self, image_view: Resource) -> (result: Result<
        PersistentDescriptorSetBuilder,
        PersistentDescriptorSetError,
    >)
        requires
            self.wf(),
            image_view.device == self@.layout.device,
        ensures
            viewed(result) == self@.add(
                DescriptorWriteInner::Image { image_view: image_view.handle },
            ),
            result matches Ok(builder) ==> builder.wf(),
    {
        self.add(DescriptorWriteInner::Image { image_view: image_view.handle })
    }

    /// Binds an image view with a sampler as the next descriptor.
    ///
    /// An error is returned if the image view isn't compatible with the
    /// descriptor. The view and the sampler must have the same device as the
    /// descriptor set layout.
    pub fn add_sampled_image(self, image_view: Resource, sampler: Resource) -> (result: Result<
        PersistentDescriptorSetBuilder,
        PersistentDescriptorSetError,
    >)
        requires
            self.wf(),
            image_view.device == self@.layout.device,
            sampler.device == self@.layout.device,
        ensures
            viewed(result) == self@.add(
                DescriptorWriteInner::CombinedImageSampler {
                    image_view: image_view.handle,
                    sampler: sampler.handle,
                },
            ),
            result matches Ok(builder) ==> builder.wf(),
    {
        self.add(
            DescriptorWriteInner::CombinedImageSampler {
                image_view: image_view.handle,
                sampler: sampler.handle,
            },
        )
    }

    /// Binds a sampler as the next descriptor.
    ///
    /// An error is returned if the sampler isn't compatible with the
    /// descriptor. The sampler must have the same device as the descriptor
    /// set layout.
    pub fn add_sampler(self, sampler: Resource) -> (result: Result<
        PersistentDescriptorSetBuilder,
        PersistentDescriptorSetError,
    >)
        requires
            self.wf(),
            sampler.device == self@.layout.device,
        ensures
            viewed(result) == self@.add(DescriptorWriteInner::Sampler { sampler: sampler.handle }),
            result matches Ok(builder) ==> builder.wf(),
    {
        self.add(DescriptorWriteInner::Sampler { sampler: sampler.handle })
    }
}

/// Same as `PersistentDescriptorSetBuilder`, but we're in an array.
#[derive(Debug)]
pub struct PersistentDescriptorSetBuilderArray {
    // The builder that entered the array.
    builder: PersistentDescriptorSetBuilder,
    // Current array elements.
    array_element: u32,
    // Description of the descriptor.
    desc: DescriptorDesc,
}

impl View for PersistentDescriptorSetBuilderArray {
    type V = ArrayView;

    closed spec fn view(&self) -> ArrayView {
        ArrayView {
            builder: self.builder@,
            desc: self.desc,
            array_element: self.array_element as nat,
        }
    }
}

impl PersistentDescriptorSetBuilderArray {
    /// The builder is well formed, and the array belongs to the descriptor
    /// that comes next in its layout.
    pub closed spec fn wf(&self) -> bool {
        &&& self.builder.wf()
        &&& self.builder@.current() == Some(self.desc)
    }

    /// Leaves the array. Call this once you added all the elements of the
    /// array.
    pub fn leave_array(self) -> (result: Result<
        PersistentDescriptorSetBuilder,
        PersistentDescriptorSetError,
    >)
        requires
            self.wf(),
        ensures
            viewed(result) == self@.leave_array(),
            result matches Ok(builder) ==> builder.wf(),
    {
        if self.desc.array_count > self.array_element {
            return Err(
                PersistentDescriptorSetError::MissingArrayElements {
                    expected: self.desc.array_count,
                    obtained: self.array_element,
                },
            );
        }
        Ok(
            PersistentDescriptorSetBuilder {
                layout: self.builder.layout,
                binding_id: self.builder.binding_id + 1,
                writes: self.builder.writes,
            },
        )
    }

    // Binds a resource as the next element of the array.
    fn add(self, inner: DescriptorWriteInner) -> (result: Result<
        PersistentDescriptorSetBuilderArray,
        PersistentDescriptorSetError,
    >)
        requires
            self.wf(),
        ensures
            viewed(result) == self@.add(inner),
            result matches Ok(array) ==> array.wf(),
    {
        if self.array_element >= self.desc.array_count {
            return Err(PersistentDescriptorSetError::ArrayOutOfBounds);
        }
        if self.desc.ty != inner.descriptor_type() {
            return Err(PersistentDescriptorSetError::WrongDescriptorTy { expected: self.desc.ty });
        }
        let mut writes = self.builder.writes;
        writes.push(
            DescriptorWrite {
                binding: self.builder.binding_id,
                array_element: self.array_element,
                inner,
            },
        );
        Ok(
            PersistentDescriptorSetBuilderArray {
                builder: PersistentDescriptorSetBuilder {
                    layout: self.builder.layout,
                    binding_id: self.builder.binding_id,
                    writes,
                },
                array_element: self.array_element + 1,
                desc: self.desc,
            },
        )
    }

    /// Binds a buffer as the next element in the array.
    ///
    /// An error is returned if the buffer isn't compatible with the
    /// descriptor. The buffer must have the same device as the descriptor set
    /// layout.
    pub fn add_buffer(self, buffer: Resource) -> (result: Result<
        PersistentDescriptorSetBuilderArray,
        PersistentDescriptorSetError,
    >)
        requires
            self.wf(),
            buffer.device == self@.builder.layout.device,
        ensures
            viewed(result) == self@.add(DescriptorWriteInner::Buffer { buffer: buffer.handle }),
            result matches Ok(array) ==> array.wf(),
    {
        self.add(DescriptorWriteInner::Buffer { buffer: buffer.handle })
    }

    /// Binds a buffer view as the next element in the array.
    ///
    /// An error is returned if the buffer view isn't compatible with the
    /// descriptor. The view must have the same device as the descriptor set
    /// layout.
    pub fn add_buffer_view(self, view: Resource) -> (result: Result<
        PersistentDescriptorSetBuilderArray,
        PersistentDescriptorSetError,
    >)
        requires
            self.wf(),
            view.device == self@.builder.layout.device,
        ensures
            viewed(result) == self@.add(DescriptorWriteInner::TexelBuffer { view: view.handle }),
            result matches Ok(array) ==> array.wf(),
    {
        self.add(DescriptorWriteInner::TexelBuffer { view: view.handle })
    }

    /// Binds an image view as the next element in the array.
    ///
    /// An error is returned if the image view isn't compatible with the
    /// descriptor. The view must have the same device as the descriptor set
    /// layout.
    pub fn add_image(self, image_view: Resource) -> (result: Result<
        PersistentDescriptorSetBuilderArray,
        PersistentDescriptorSetError,
    >)
        requires
            self.wf(),
            image_view.device == self@.builder.layout.device,
        ensures
            viewed(result) == self@.add(
                DescriptorWriteInner::Image { image_view: image_view.handle },
            ),
            result matches Ok(array) ==> array.wf(),
    {
        self.add(DescriptorWriteInner::Image { image_view: image_view.handle })
    }

    /// Binds an image view with a sampler as the next element in the array.
    ///
    /// An error is returned if the image view isn't compatible with the
    /// descriptor. The view and the sampler must have the same device as the
    /// descriptor set layout.
    pub fn add_sampled_image(self, image_view: Resource, sampler: Resource) -> (result: Result<
        PersistentDescriptorSetBuilderArray,
        PersistentDescriptorSetError,
    >)
        requires
            self.wf(),
            image_view.device == self@.builder.layout.device,
            sampler.device == self@.builder.layout.device,
        ensures
            viewed(result) == self@.add(
                DescriptorWriteInner::CombinedImageSampler {
                    image_view: image_view.handle,
                    sampler: sampler.handle,
                },
            ),
            result matches Ok(array) ==> array.wf(),
    {
        self.add(
            DescriptorWriteInner::CombinedImageSampler {
                image_view: image_view.handle,
                sampler: sampler.handle,
            },
        )
    }

    /// Binds a sampler as the next element in the array.
    ///
    /// An error is returned if the sampler isn't compatible with the
    /// descriptor. The sampler must have the same device as the descriptor
    /// set layout.
    pub fn add_sampler(self, sampler: Resource) -> (result: Result<
        PersistentDescriptorSetBuilderArray,
        PersistentDescriptorSetError,
    >)
        requires
            self.wf(),
            sampler.device == self@.builder.layout.device,
        ensures
            viewed(result) == self@.add(DescriptorWriteInner::Sampler { sampler: sampler.handle }),
            result matches Ok(array) ==> array.wf(),
    {
        self.add(DescriptorWriteInner::Sampler { sampler: sampler.handle })
    }
}

} // verus!
