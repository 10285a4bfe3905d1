//! The layout that every descriptor set of a pool has.

use std::sync::Arc;
use vstd::prelude::*;

verus! {

/// The kinds of resource that a descriptor can take.
#[derive(Clone, Copy, Debug, PartialEq, Eq, Structural)]
pub enum DescriptorType {
    /// A sampler alone.
    Sampler,
    /// An image view together with the sampler to read it with.
    CombinedImageSampler,
    /// An image view.
    Image,
    /// A buffer view.
    TexelBuffer,
    /// A buffer.
    Buffer,
}

/// One descriptor of a layout.
#[derive(Clone, Copy, Debug, PartialEq, Eq, Structural)]
pub struct DescriptorDesc {
    /// The kind of resource that the descriptor takes.
    pub ty: DescriptorType,
    /// How many elements the descriptor has. A descriptor that is not an
    /// array has one.
    pub array_count: u32,
}

/// What a layout is, as plain values.
pub struct LayoutView {
    /// The device that the layout belongs to.
    pub device: u64,
    /// The descriptors by binding number. `None` is an empty binding.
    pub descriptors: Seq<Option<DescriptorDesc>>,
}

impl LayoutView {
    /// The descriptor at `binding`. A binding behind the last one is empty.
    pub open spec fn descriptor(self, binding: int) -> Option<DescriptorDesc> {
        if 0 <= binding < self.descriptors.len() {
            self.descriptors[binding]
        } else {
            None
        }
    }
}

/// Describes which resources a descriptor set takes, binding by binding.
#[derive(Debug)]
pub struct DescriptorSetLayout {
    device: u64,
    descriptors: Vec<Option<DescriptorDesc>>,
}

impl View for DescriptorSetLayout {
    type V = LayoutView;

    closed spec fn view(&self) -> LayoutView {
        LayoutView { device: self.device, descriptors: self.descriptors@ }
    }
}

impl DescriptorSetLayout {
    /// A layout on `device` with the given descriptors, or `None` if there
    /// are more of them than a `u32` can number.
    pub fn new(device: u64, descriptors: Vec<Option<DescriptorDesc>>) -> (layout: Option<
        DescriptorSetLayout,
    >)
        ensures
            descriptors.len() <= u32::MAX <==> layout is Some,
            layout matches Some(made) ==> made@ == (LayoutView {
                device,
                descriptors: descriptors@,
            }) && made.wf(),
    {
        if descriptors.len() <= u32::MAX as usize {
            Some(DescriptorSetLayout { device, descriptors })
        } else {
            None
        }
    }

    /// The bindings can be numbered with a `u32`.
    pub open spec fn wf(&self) -> bool {
        self@.descriptors.len() <= u32::MAX
    }

    /// The device that the layout belongs to.
    pub fn device(&self) -> (device: u64)
        ensures
            device == self@.device,
    {
        self.device
    }

    /// The number of bindings, empty ones included.
    pub fn num_bindings(&self) -> (count: u32)
        requires
            self.wf(),
        ensures
            count == self@.descriptors.len(),
    {
        self.descriptors.len() as u32
    }

    /// The descriptor at `binding`, or `None` if the binding is empty or
    /// behind the last one.
    pub fn descriptor(&self, binding: u32) -> (desc: Option<DescriptorDesc>)
        ensures
            desc == self@.descriptor(binding as int),
    {
        if (binding as usize) < self.descriptors.len() {
            self.descriptors[binding as usize]
        } else {
            None
        }
    }
}

/// `Arc::clone`: another pointer to the same layout.
#[verifier::external_body]
pub(crate) fn share(layout: &Arc<DescriptorSetLayout>) -> (shared: Arc<DescriptorSetLayout>)
    ensures
        *shared == **layout,
{
    layout.clone()
}

} // verus!
