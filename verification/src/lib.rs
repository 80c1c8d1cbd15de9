//! Descriptor-indexing helpers for shaders that address a bindless resource heap.
//!
//! The host side owns descriptor set `0`, binding `0` for resources (images and
//! storage buffers) and descriptor set `1`, binding `0` for samplers. A shader
//! refers to a resource or a sampler by its `u32` index into that heap.

pub mod shaders;

pub use shaders::{
    image_from_u32, sampler_from_u32, storage_buffer_descriptor, storage_buffer_load_from_u32,
    storage_buffer_store_from_u32, BindlessImage, BindlessSampler, DescriptorSlot, RESOURCE_BINDING,
    RESOURCE_DESCRIPTOR_SET, SAMPLER_BINDING, SAMPLER_DESCRIPTOR_SET,
};
