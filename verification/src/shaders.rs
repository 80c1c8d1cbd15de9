//! Descriptor handles for the bindless resource and sampler heaps.
//!
//! A handle is the index of a descriptor in one of the two heaps. Which
//! descriptor set and binding a handle resolves to is fixed by the heap it
//! belongs to: images and storage buffers share the resource heap, samplers
//! have a heap of their own.

use core::marker::PhantomData;
use vstd::prelude::*;

verus! {

/// Descriptor set used by the mutable resource heap.
pub const RESOURCE_DESCRIPTOR_SET: u32 = 0;

/// Binding used by the mutable resource heap.
pub const RESOURCE_BINDING: u32 = 0;

/// Descriptor set used by the sampler heap.
pub const SAMPLER_DESCRIPTOR_SET: u32 = 1;

/// Binding used by the sampler heap.
pub const SAMPLER_BINDING: u32 = 0;

/// The place of one descriptor: its descriptor set, its binding, and its
/// element in the runtime array bound there.
#[derive(Clone, Copy, Debug, PartialEq, Eq, Structural)]
pub struct DescriptorSlot {
    pub set: u32,
    pub binding: u32,
    pub index: u32,
}

/// The descriptor at `index` of the resource heap.
pub open spec fn resource_slot(index: u32) -> DescriptorSlot {
    DescriptorSlot { set: RESOURCE_DESCRIPTOR_SET, binding: RESOURCE_BINDING, index }
}

/// The descriptor at `index` of the sampler heap.
pub open spec fn sampler_slot(index: u32) -> DescriptorSlot {
    DescriptorSlot { set: SAMPLER_DESCRIPTOR_SET, binding: SAMPLER_BINDING, index }
}

/// Bindless image descriptor handle: the index of an image in the resource heap.
///
/// `I` is the image type the descriptor is read as, for example a
/// `spirv_std::Image!` type.
pub struct BindlessImage<I> {
    id: u32,
    _marker: PhantomData<I>,
}

impl<I> View for BindlessImage<I> {
    type V = u32;

    closed spec fn view(&self) -> u32 {
        self.id
    }
}

impl<I> Copy for BindlessImage<I> {
}

impl<I> Clone for BindlessImage<I> {
    fn clone(&self) -> (copy: Self)
        ensures
            copy == *self,
    {
        *self
    }
}

impl<I> BindlessImage<I> {
    /// The resource-heap descriptor this handle refers to.
    pub open spec fn slot(self) -> DescriptorSlot {
        resource_slot(self@)
    }

    /// The resource-heap descriptor this handle refers to.
    pub fn descriptor(&self) -> (slot: DescriptorSlot)
        ensures
            slot == self.slot(),
            slot.set == RESOURCE_DESCRIPTOR_SET,
            slot.binding == RESOURCE_BINDING,
            slot.index == self@,
    {
        DescriptorSlot { set: RESOURCE_DESCRIPTOR_SET, binding: RESOURCE_BINDING, index: self.id }
    }
}

/// Bindless sampler descriptor handle: the index of a sampler in the sampler heap.
#[derive(Clone, Copy)]
pub struct BindlessSampler {
    id: u32,
}

impl View for BindlessSampler {
    type V = u32;

    closed spec fn view(&self) -> u32 {
        self.id
    }
}

impl BindlessSampler {
    /// The sampler-heap descriptor this handle refers to.
    pub open spec fn slot(self) -> DescriptorSlot {
        sampler_slot(self@)
    }

    /// The sampler-heap descriptor this handle refers to.
    pub fn descriptor(&self) -> (slot: DescriptorSlot)
        ensures
            slot == self.slot(),
            slot.set == SAMPLER_DESCRIPTOR_SET,
            slot.binding == SAMPLER_BINDING,
            slot.index == self@,
    {
        DescriptorSlot { set: SAMPLER_DESCRIPTOR_SET, binding: SAMPLER_BINDING, index: self.id }
    }
}

/// Gets an image descriptor handle from set `0`, binding `0`.
///
/// `I` should be a `spirv_std::Image!` type, for example
/// `spirv_std::image::Image2d` or `spirv_std::image::StorageImage2d`.
///
/// This builds the handle a SPIR-V shader holds; reaching the descriptor it
/// names is the shader's own work.
pub fn image_from_u32<I: 'static + Sized + Send + Sync>(id: u32) -> (image: BindlessImage<I>)
    ensures
        image@ == id,
{
    BindlessImage { id, _marker: PhantomData }
}

/// Gets a sampler descriptor handle from set `1`, binding `0`.
///
/// This builds the handle a SPIR-V shader holds; reaching the descriptor it
/// names is the shader's own work.
pub fn sampler_from_u32(id: u32) -> (sampler: BindlessSampler)
    ensures
        sampler@ == id,
{
    BindlessSampler { id }
}

/// The descriptor that a typed storage buffer with index `id` is loaded
/// from: set `0`, binding `0`, element `id`.
pub fn storage_buffer_descriptor(id: u32) -> (slot: DescriptorSlot)
    ensures
        slot == resource_slot(id),
        slot.set == RESOURCE_DESCRIPTOR_SET,
        slot.binding == RESOURCE_BINDING,
        slot.index == id,
{
    DescriptorSlot { set: RESOURCE_DESCRIPTOR_SET, binding: RESOURCE_BINDING, index: id }
}

/// Loads element `index` of a storage buffer.
pub fn storage_buffer_load_from_u32<T: Copy>(buffer: &[T], index: u32) -> (value: T)
    requires
        index < buffer@.len(),
    ensures
        value == buffer@[index as int],
{
    buffer[index as usize]
}

/// Stores `value` into element `index` of a storage buffer.
pub fn storage_buffer_store_from_u32<T: Copy>(buffer: &mut [T], index: u32, value: T)
    requires
        index < old(buffer)@.len(),
    ensures
        final(buffer)@ == old(buffer)@.update(index as int, value),
{
    buffer[index as usize] = value;
}

/// Every descriptor of the resource heap lies in descriptor set `0`, binding
/// `0`, and its array element is the index it was asked for, unchanged.
pub proof fn lemma_resource_slot_layout(index: u32)
    ensures
        resource_slot(index).set == 0,
        resource_slot(index).binding == 0,
        resource_slot(index).index == index,
        resource_slot(index).set == RESOURCE_DESCRIPTOR_SET,
        resource_slot(index).binding == RESOURCE_BINDING,
{
}

/// Every descriptor of the sampler heap lies in descriptor set `1`, binding
/// `0`, and its array element is the index it was asked for, unchanged.
pub proof fn lemma_sampler_slot_layout(index: u32)
    ensures
        sampler_slot(index).set == 1,
        sampler_slot(index).binding == 0,
        sampler_slot(index).index == index,
        sampler_slot(index).set == SAMPLER_DESCRIPTOR_SET,
        sampler_slot(index).binding == SAMPLER_BINDING,
{
}

/// An image handle refers to set `0`, binding `0`, element equal to the
/// handle's own index; a handle made from `id` names element `id`.
pub proof fn lemma_image_handle_names_its_index<I>(image: BindlessImage<I>)
    ensures
        image.slot().set == 0,
        image.slot().binding == 0,
        image.slot().index == image@,
{
}

/// A sampler handle refers to set `1`, binding `0`, element equal to the
/// handle's own index; a handle made from `id` names element `id`.
pub proof fn lemma_sampler_handle_names_its_index(sampler: BindlessSampler)
    ensures
        sampler.slot().set == 1,
        sampler.slot().binding == 0,
        sampler.slot().index == sampler@,
{
}

/// An image handle and a sampler handle never refer to the same descriptor,
/// whatever their indices: the two heaps live in different descriptor sets.
pub proof fn lemma_images_and_samplers_never_alias<I>(image: BindlessImage<I>, sampler: BindlessSampler)
    ensures
        image.slot() != sampler.slot(),
{
}

/// Images and storage buffers share the resource heap: an image handle refers
/// to the descriptor that the storage buffer with index `id` is loaded from
/// exactly when the handle's index is `id`.
pub proof fn lemma_images_and_storage_buffers_share_heap<I>(image: BindlessImage<I>, id: u32)
    ensures
        (image.slot() == resource_slot(id)) <==> (image@ == id),
{
}

/// Within one heap a descriptor is identified by its index: two handles of the
/// same heap refer to the same descriptor exactly when their indices are equal.
pub proof fn lemma_heap_slots_are_distinct(a: u32, b: u32)
    ensures
        (resource_slot(a) == resource_slot(b)) <==> (a == b),
        (sampler_slot(a) == sampler_slot(b)) <==> (a == b),
{
}

/// A load after a store gives back the stored value at the stored index and
/// the earlier contents everywhere else; a store keeps the buffer's length.
pub proof fn lemma_load_after_store<T>(buffer: Seq<T>, store_index: u32, value: T, load_index: u32)
    requires
        store_index < buffer.len(),
        load_index < buffer.len(),
    ensures
        buffer.update(store_index as int, value).len() == buffer.len(),
        buffer.update(store_index as int, value)[load_index as int] == (if load_index == store_index {
            value
        } else {
            buffer[load_index as int]
        }),
{
}

} // verus!
