use gpu_allocator::vulkan::Allocation;
use sgpu::registry::{
    add_view, image_memory_barrier, register_image, view_target, BufferRecord, BufferRegistry,
    ImageRecord, ImageRegistry, ViewRecord, ViewRegistry,
};
use sgpu::types::{descriptor_index_of_key, NULL_RESOURCE_KEY};
use sgpu::{build_image_barrier, AccessType, ImageAspect, ImageBarrier, ImageSubresources, ImageView};

fn record(buffer: u64, size: u64) -> BufferRecord {
    BufferRecord { buffer, size, device_address: 0x1000 + buffer }
}

fn subresources(mip_level: u32) -> ImageSubresources {
    ImageSubresources { aspect: ImageAspect::color(), mip_level, base_array_layer: 0, layer_count: 1, level_count: 1 }
}

#[test]
fn registered_buffer_is_found_until_unregistered() {
    let mut buffers = BufferRegistry::new();
    assert_eq!(buffers.len(), 0);

    let a = buffers.register(record(7, 64), Allocation::default());
    let b = buffers.register(record(9, 128), Allocation::default());
    assert_eq!(a.raw, 7);
    assert_eq!(b.raw, 9);
    assert_ne!(a.id, b.id);
    assert_ne!(a.id, NULL_RESOURCE_KEY);
    assert_eq!(buffers.len(), 2);
    assert_eq!(buffers.record(&a), Some(record(7, 64)));
    assert_eq!(buffers.record(&b), Some(record(9, 128)));
    assert!(buffers.allocation(&a).is_some());

    let mut ids = buffers.ids();
    ids.sort();
    let mut expected = vec![a.id, b.id];
    expected.sort();
    assert_eq!(ids, expected);

    let (taken, _) = buffers.unregister(a.id).expect("registered");
    assert_eq!(taken, record(7, 64));
    assert_eq!(buffers.record(&a), None);
    assert!(buffers.allocation(&a).is_none());
    assert!(buffers.unregister(a.id).is_none());
    assert_eq!(buffers.len(), 1);
    assert_eq!(buffers.record(&b), Some(record(9, 128)));
}

#[test]
fn reused_slot_gets_a_new_key() {
    let mut buffers = BufferRegistry::new();
    let first = buffers.register(record(1, 4), Allocation::default());
    buffers.unregister(first.id).expect("registered");
    let second = buffers.register(record(2, 8), Allocation::default());
    // Same slot, so the same descriptor index, but a different key.
    assert_eq!(descriptor_index_of_key(first.id), descriptor_index_of_key(second.id));
    assert_ne!(first.id, second.id);
    assert_eq!(buffers.record(&first), None);
    assert_eq!(buffers.record(&second), Some(record(2, 8)));
}

#[test]
fn views_point_at_their_image() {
    let mut images = ImageRegistry::new();
    let mut views = ViewRegistry::new();
    let image = register_image(&mut images, &mut views, ImageRecord { image: 40, format: 97 }, Allocation::default(), 41, subresources(0));
    assert_eq!(image.raw, 40);
    assert_eq!(image.default_view.raw, 41);
    assert_ne!(image.default_view.id, NULL_RESOURCE_KEY);
    assert_eq!(view_target(&images, &views, &image.default_view), Some((40, subresources(0))));

    let second = add_view(&images, &mut views, &image, 42, subresources(3)).expect("registered");
    assert_eq!(second.raw, 42);
    assert_ne!(second.id, image.default_view.id);
    assert_eq!(view_target(&images, &views, &second), Some((40, subresources(3))));
    assert_eq!(view_target(&images, &views, &image.default_view), Some((40, subresources(0))));
    assert_eq!(views.record(&second), Some(ViewRecord { view: 42, image: image.id, subresources: subresources(3) }));

    let mut of_image = views.views_of(image.id);
    of_image.sort();
    let mut expected = vec![image.default_view.id, second.id];
    expected.sort();
    assert_eq!(of_image, expected);

    let record = images.record(image.id).expect("registered");
    assert_eq!(record, ImageRecord { image: 40, format: 97 });
    assert_eq!(view_target(&images, &views, &ImageView::default()), None);
}

#[test]
fn unregistered_image_has_no_views() {
    let mut images = ImageRegistry::new();
    let mut views = ViewRegistry::new();
    let image = register_image(&mut images, &mut views, ImageRecord { image: 5, format: 37 }, Allocation::default(), 6, subresources(0));
    let other = register_image(&mut images, &mut views, ImageRecord { image: 8, format: 37 }, Allocation::default(), 9, subresources(0));
    let (record, _) = images.unregister(image.id).expect("registered");
    assert_eq!(record.image, 5);
    assert!(images.record(image.id).is_none());
    // its view is still registered, but points at no image
    assert_eq!(view_target(&images, &views, &image.default_view), None);
    assert!(add_view(&images, &mut views, &image, 7, subresources(0)).is_none());
    let stale = views.views_of(image.id);
    assert_eq!(stale, vec![image.default_view.id]);
    assert_eq!(views.unregister(stale[0]).map(|v| v.view), Some(6));
    assert!(views.views_of(image.id).is_empty());
    assert_eq!(views.views_of(other.id), vec![other.default_view.id]);
    assert!(images.unregister(image.id).is_none());
    assert_eq!(images.ids(), vec![other.id]);
}

#[test]
fn image_memory_barrier_targets_the_view() {
    let mut images = ImageRegistry::new();
    let mut views = ViewRegistry::new();
    let image = register_image(&mut images, &mut views, ImageRecord { image: 70, format: 97 }, Allocation::default(), 71, subresources(2));
    let barrier = ImageBarrier {
        view: image.default_view,
        previous_accesses: &[AccessType::TransferWrite],
        next_accesses: &[AccessType::FragmentShaderSampledRead],
        ..ImageBarrier::default()
    };
    let full = image_memory_barrier(&images, &views, &barrier).expect("live view");
    assert_eq!(full.transition, build_image_barrier(&barrier));
    assert_eq!(full.image, 70);
    assert_eq!(full.subresources, subresources(2));
    assert_eq!(full.src_queue_family_index, ash::vk::QUEUE_FAMILY_IGNORED);
    assert_eq!(full.dst_queue_family_index, ash::vk::QUEUE_FAMILY_IGNORED);
    let dangling = ImageBarrier { view: ImageView { raw: 1, id: 12345 }, ..ImageBarrier::default() };
    assert!(image_memory_barrier(&images, &views, &dangling).is_none());
}
