use dst_heap::{
    image_from_u32, sampler_from_u32, storage_buffer_descriptor, storage_buffer_load_from_u32,
    storage_buffer_store_from_u32, BindlessImage, DescriptorSlot, RESOURCE_BINDING,
    RESOURCE_DESCRIPTOR_SET, SAMPLER_BINDING, SAMPLER_DESCRIPTOR_SET,
};
use spirv_std::image::{Image2d, StorageImage2d};

#[test]
fn heap_constants_match_host_layout() {
    assert_eq!(RESOURCE_DESCRIPTOR_SET, 0);
    assert_eq!(RESOURCE_BINDING, 0);
    assert_eq!(SAMPLER_DESCRIPTOR_SET, 1);
    assert_eq!(SAMPLER_BINDING, 0);
}

#[test]
fn image_handle_addresses_resource_heap() {
    let image = image_from_u32::<Image2d>(42);
    assert_eq!(image.descriptor(), DescriptorSlot { set: 0, binding: 0, index: 42 });
}

#[test]
fn storage_image_handle_addresses_resource_heap() {
    let image = image_from_u32::<StorageImage2d>(7);
    assert_eq!(image.descriptor(), DescriptorSlot { set: 0, binding: 0, index: 7 });
}

#[test]
fn image_handle_keeps_extreme_indices() {
    assert_eq!(image_from_u32::<Image2d>(0).descriptor().index, 0);
    assert_eq!(image_from_u32::<Image2d>(u32::MAX).descriptor().index, u32::MAX);
}

#[test]
fn sampler_handle_addresses_sampler_heap() {
    let sampler = sampler_from_u32(3);
    assert_eq!(sampler.descriptor(), DescriptorSlot { set: 1, binding: 0, index: 3 });
}

#[test]
fn storage_buffer_addresses_resource_heap() {
    assert_eq!(storage_buffer_descriptor(9), DescriptorSlot { set: 0, binding: 0, index: 9 });
}

#[test]
fn images_and_storage_buffers_share_heap() {
    for id in [0u32, 1, 5, 1000, u32::MAX] {
        assert_eq!(image_from_u32::<Image2d>(id).descriptor(), storage_buffer_descriptor(id));
    }
    assert_ne!(image_from_u32::<Image2d>(1).descriptor(), storage_buffer_descriptor(2));
}

#[test]
fn images_and_samplers_never_alias() {
    for image_id in [0u32, 1, 2, u32::MAX] {
        for sampler_id in [0u32, 1, 2, u32::MAX] {
            assert_ne!(
                image_from_u32::<Image2d>(image_id).descriptor(),
                sampler_from_u32(sampler_id).descriptor()
            );
        }
    }
}

#[test]
fn distinct_indices_give_distinct_descriptors() {
    assert_ne!(sampler_from_u32(1).descriptor(), sampler_from_u32(2).descriptor());
    assert_ne!(storage_buffer_descriptor(1), storage_buffer_descriptor(2));
    assert_eq!(sampler_from_u32(4).descriptor(), sampler_from_u32(4).descriptor());
}

#[test]
fn handles_are_copy_and_clone() {
    let image: BindlessImage<Image2d> = image_from_u32(11);
    let copied = image;
    let cloned = image.clone();
    assert_eq!(copied.descriptor(), image.descriptor());
    assert_eq!(cloned.descriptor(), image.descriptor());

    let sampler = sampler_from_u32(12);
    let sampler_copy = sampler;
    let sampler_clone = sampler.clone();
    assert_eq!(sampler_copy.descriptor(), sampler.descriptor());
    assert_eq!(sampler_clone.descriptor(), sampler.descriptor());
}

#[test]
fn storage_buffer_load_reads_element() {
    let buffer = [10u32, 20, 30];
    assert_eq!(storage_buffer_load_from_u32(&buffer, 0), 10);
    assert_eq!(storage_buffer_load_from_u32(&buffer, 2), 30);
}

#[test]
fn storage_buffer_store_writes_element() {
    let mut buffer = [1.0f32, 2.0, 3.0];
    storage_buffer_store_from_u32(&mut buffer, 1, 5.5);
    assert_eq!(buffer, [1.0, 5.5, 3.0]);
}

#[test]
fn load_after_store_gives_back_value() {
    let mut buffer = vec![0u64; 4];
    storage_buffer_store_from_u32(&mut buffer, 3, 77);
    assert_eq!(storage_buffer_load_from_u32(&buffer, 3), 77);
    assert_eq!(storage_buffer_load_from_u32(&buffer, 2), 0);
    assert_eq!(buffer.len(), 4);
    storage_buffer_store_from_u32(&mut buffer, 3, 78);
    assert_eq!(storage_buffer_load_from_u32(&buffer, 3), 78);
}
