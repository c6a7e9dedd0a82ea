use sgpu::device::{
    device_score, extensions_supported, find_queue_families, required_device_extensions,
    required_instance_extensions, select_physical_device, unique_families, DeviceCandidate,
    DeviceExtension, InstanceExtension, QueueFamilyIndices, WindowSystem,
};
use sgpu::pipeline::spirv_words;
use sgpu::pools::{next_signal, plan_submit, submission_queue};
use sgpu::swapchain::{
    choose_extent, choose_image_count, choose_present_mode, choose_surface_format,
    SurfaceCapabilities, SurfaceFormat, SwapchainFrames,
};
use sgpu::vk_raw;
use sgpu::{
    build_image_barrier, fold_accesses, poll, AccessType, BlendMode, Buffer, BufferUsage,
    CommandBuffer, CommandPoolRing, Counter, DepthStencilState, Extent2D, Extent3D, Format, Image,
    ImageBarrier, ImageDescription, ImageLayout, ImageView, MemoryType, PipelineStage, PoolChoice,
    QueueType, RasterizationPipelineDescription, SemaphoreWait, SgpuInititizationInfo, StoreOp,
    TimelineValues, WaitTarget,
};

fn timelines(g: u64, c: u64, t: u64) -> TimelineValues {
    TimelineValues { graphics: g, compute: c, transfer: t }
}

#[test]
fn counter_roundtrip() {
    let c = Counter::encode(QueueType::Transfer, 42);
    let (q, v) = c.decode();
    assert!(q == QueueType::Transfer);
    assert_eq!(v, 42);
    let c = Counter::encode(QueueType::Compute, (1u64 << 56) + 7);
    let (q, v) = c.decode();
    assert!(q == QueueType::Compute);
    assert_eq!(v, 7);
    let c = Counter::encode(QueueType::Graphics, u64::MAX);
    assert_eq!(c.decode().1, (1u64 << 56) - 1);
}

#[test]
fn poll_reads_the_counters_queue() {
    let c = Counter::encode(QueueType::Compute, 5);
    assert!(!poll(c, &timelines(100, 4, 100)));
    assert!(poll(c, &timelines(0, 5, 0)));
    assert!(poll(c, &timelines(0, 9, 0)));
}

#[test]
fn next_signal_increments() {
    let mut value = 9u64;
    let c = next_signal(QueueType::Graphics, &mut value);
    assert_eq!(value, 10);
    assert!(c.decode().0 == QueueType::Graphics);
    assert_eq!(c.decode().1, 10);
}

#[test]
fn read_only_dependency_has_no_access_masks() {
    let m = fold_accesses(&[AccessType::FragmentShaderSampledRead], &[AccessType::ComputeShaderStorageRead]);
    assert_eq!(m.src_stage, vk_raw::STAGE_FRAGMENT_SHADER);
    assert_eq!(m.dst_stage, vk_raw::STAGE_COMPUTE_SHADER);
    assert_eq!(m.src_access, 0);
    assert_eq!(m.dst_access, 0);
}

#[test]
fn write_dependency_makes_next_accesses_visible() {
    let m = fold_accesses(
        &[AccessType::TransferWrite, AccessType::FragmentShaderSampledRead],
        &[AccessType::VertexBuffer, AccessType::IndexBuffer],
    );
    assert_eq!(m.src_stage, vk_raw::STAGE_COPY | vk_raw::STAGE_FRAGMENT_SHADER);
    assert_eq!(m.src_access, vk_raw::ACCESS_TRANSFER_WRITE);
    assert_eq!(m.dst_stage, vk_raw::STAGE_VERTEX_INPUT | vk_raw::STAGE_INDEX_INPUT);
    assert_eq!(m.dst_access, vk_raw::ACCESS_VERTEX_ATTRIBUTE_READ | vk_raw::ACCESS_INDEX_READ);
}

#[test]
fn empty_dependency_uses_top_and_bottom_of_pipe() {
    let m = fold_accesses(&[], &[]);
    assert_eq!(m.src_stage, vk_raw::STAGE_TOP_OF_PIPE);
    assert_eq!(m.dst_stage, vk_raw::STAGE_BOTTOM_OF_PIPE);
    assert_eq!(m.src_access, 0);
    assert_eq!(m.dst_access, 0);
}

#[test]
fn write_classification() {
    assert!(AccessType::TransferWrite.is_write());
    assert!(AccessType::General.is_write());
    assert!(AccessType::ColorAttachmentReadWrite.is_write());
    assert!(!AccessType::TransferRead.is_write());
    assert!(!AccessType::Present.is_write());
    assert!(!AccessType::Nothing.is_write());
}

#[test]
fn image_barrier_layout_transitions() {
    let barrier = ImageBarrier {
        previous_accesses: &[AccessType::ColorAttachmentWrite],
        next_accesses: &[AccessType::FragmentShaderSampledRead],
        ..ImageBarrier::default()
    };
    let t = build_image_barrier(&barrier);
    assert_eq!(t.old_layout, vk_raw::LAYOUT_COLOR_ATTACHMENT_OPTIMAL);
    assert_eq!(t.new_layout, vk_raw::LAYOUT_SHADER_READ_ONLY_OPTIMAL);
    assert_eq!(t.masks, fold_accesses(barrier.previous_accesses, barrier.next_accesses));
    assert_eq!(t.masks.src_access, vk_raw::ACCESS_COLOR_ATTACHMENT_WRITE);
    assert_eq!(t.masks.dst_access, vk_raw::ACCESS_SHADER_SAMPLED_READ);

    let discard = ImageBarrier {
        previous_accesses: &[AccessType::ColorAttachmentWrite],
        next_accesses: &[AccessType::TransferWrite],
        discard_contents: true,
        ..ImageBarrier::default()
    };
    let t = build_image_barrier(&discard);
    assert_eq!(t.old_layout, vk_raw::LAYOUT_UNDEFINED);
    assert_eq!(t.new_layout, vk_raw::LAYOUT_TRANSFER_DST_OPTIMAL);

    let present = ImageBarrier {
        previous_accesses: &[AccessType::ColorAttachmentWrite],
        next_accesses: &[AccessType::Present],
        previous_layout: ImageLayout::General,
        next_layout: ImageLayout::General,
        ..ImageBarrier::default()
    };
    let t = build_image_barrier(&present);
    assert_eq!(t.old_layout, vk_raw::LAYOUT_GENERAL);
    assert_eq!(t.new_layout, vk_raw::LAYOUT_PRESENT_SRC);

    let shared = ImageBarrier {
        previous_accesses: &[AccessType::Nothing],
        next_accesses: &[AccessType::Present],
        next_layout: ImageLayout::GeneralAndPresentation,
        ..ImageBarrier::default()
    };
    let t = build_image_barrier(&shared);
    assert_eq!(t.old_layout, vk_raw::LAYOUT_UNDEFINED);
    assert_eq!(t.new_layout, vk_raw::LAYOUT_SHARED_PRESENT);
}

#[test]
fn image_barrier_uses_the_last_access_layout() {
    let barrier = ImageBarrier {
        previous_accesses: &[AccessType::TransferWrite, AccessType::TransferRead],
        next_accesses: &[AccessType::ColorAttachmentRead, AccessType::ComputeShaderStorageRead],
        ..ImageBarrier::default()
    };
    let t = build_image_barrier(&barrier);
    assert_eq!(t.old_layout, vk_raw::LAYOUT_TRANSFER_SRC_OPTIMAL);
    assert_eq!(t.new_layout, vk_raw::LAYOUT_GENERAL);
}

#[test]
fn wait_for_skips_own_queue() {
    let mut cmd = CommandBuffer::new(77, QueueType::Graphics, 1);
    cmd.wait_for(Counter::encode(QueueType::Graphics, 3), PipelineStage::all_commands());
    assert!(cmd.waits().is_empty());
    assert!(cmd.has_room_for_wait());
    cmd.wait_for(Counter::encode(QueueType::Transfer, 8), PipelineStage::all_commands());
    assert_eq!(cmd.waits().len(), 1);
    let w = cmd.waits()[0];
    assert_eq!(w.target, WaitTarget::Timeline(QueueType::Transfer));
    assert_eq!(w.value, 8);
    assert_eq!(w.stage, PipelineStage::all_commands());
    assert_eq!(cmd.handle(), 77);
    assert_eq!(cmd.pool_idx(), 1);
    assert!(cmd.queue() == QueueType::Graphics);
}

#[test]
fn submit_plan_gathers_waits_in_order() {
    let mut a = CommandBuffer::new(1, QueueType::Compute, 0);
    let mut b = CommandBuffer::new(2, QueueType::Compute, 0);
    a.wait_for(Counter::encode(QueueType::Graphics, 4), PipelineStage::compute_shader());
    b.wait_for(Counter::encode(QueueType::Transfer, 6), PipelineStage::all_commands());
    b.wait_for(Counter::encode(QueueType::Graphics, 9), PipelineStage::vertex_shader());
    let cmds = [a, b];
    assert!(submission_queue(&cmds) == QueueType::Compute);
    let plan = plan_submit(&cmds);
    assert_eq!(plan.command_buffers, vec![1, 2]);
    let values: Vec<u64> = plan.waits.iter().map(|w: &SemaphoreWait| w.value).collect();
    assert_eq!(values, vec![4, 6, 9]);
}

#[test]
fn pool_ring_reuses_and_grows() {
    let mut ring = CommandPoolRing::new(QueueType::Graphics, vec![100, 101, 102]);
    let t0 = timelines(0, 0, 0);
    // First recording: pool 0, no reset, needs buffers.
    let idx = match ring.acquire_pool(&t0) {
        PoolChoice::Existing { idx, reset } => {
            assert!(!reset);
            idx
        }
        PoolChoice::NeedsNewPool => panic!("a fresh pool is free"),
    };
    assert_eq!(idx, 0);
    assert!(ring.needs_buffers(idx));
    ring.add_buffers(idx, vec![10, 11, 12, 13, 14, 15, 16, 17]);
    assert_eq!(ring.take_buffer(idx), 10);
    // Pool 0 is in use: next recording goes to pool 1.
    match ring.acquire_pool(&t0) {
        PoolChoice::Existing { idx, .. } => assert_eq!(idx, 1),
        PoolChoice::NeedsNewPool => panic!("pool 1 is free"),
    }
    ring.add_buffers(1, vec![20]);
    assert_eq!(ring.take_buffer(1), 20);
    ring.mark_submitted(0, Counter::encode(QueueType::Graphics, 1));
    ring.mark_submitted(1, Counter::encode(QueueType::Graphics, 2));
    match ring.acquire_pool(&t0) {
        PoolChoice::Existing { idx, reset } => {
            assert_eq!(idx, 2);
            assert!(!reset);
        }
        PoolChoice::NeedsNewPool => panic!("pool 2 is free"),
    }
    ring.add_buffers(2, vec![30]);
    assert_eq!(ring.take_buffer(2), 30);
    // Nothing signalled yet and every pool busy: the ring must grow.
    assert_eq!(ring.acquire_pool(&t0), PoolChoice::NeedsNewPool);
    let new_idx = ring.push_pool(103);
    assert_eq!(new_idx, 3);
    assert_eq!(ring.len(), 4);
    assert_eq!(ring.pool(3), 103);
    assert!(ring.needs_buffers(3));
    ring.add_buffers(3, vec![40]);
    assert_eq!(ring.take_buffer(3), 40);
    // Once the first submission is done its pool is reset and handed out again.
    match ring.acquire_pool(&timelines(1, 0, 0)) {
        PoolChoice::Existing { idx, reset } => {
            assert_eq!(idx, 0);
            assert!(reset);
            assert!(!ring.needs_buffers(idx));
            assert_eq!(ring.take_buffer(idx), 10);
        }
        PoolChoice::NeedsNewPool => panic!("pool 0 was signalled"),
    }
}

#[test]
fn present_mode_prefers_mailbox() {
    assert_eq!(choose_present_mode(&[2, 1, 0]), 1);
    assert_eq!(choose_present_mode(&[0, 2]), 2);
    assert_eq!(choose_present_mode(&[]), 2);
}

#[test]
fn surface_format_prefers_requested_srgb() {
    let formats = [
        SurfaceFormat { format: 44, color_space: 0 },
        SurfaceFormat { format: 97, color_space: 1 },
        SurfaceFormat { format: 97, color_space: 0 },
    ];
    let c = choose_surface_format(&formats, Format::Rgba16Float);
    assert_eq!(c.index, 2);
    assert!(c.requested);
    let c = choose_surface_format(&formats, Format::Rgba8Unorm);
    assert_eq!(c.index, 0);
    assert!(!c.requested);
}

#[test]
fn extent_and_image_count_choices() {
    let caps = SurfaceCapabilities {
        min_image_count: 2,
        max_image_count: 4,
        current_extent: Extent2D { width: u32::MAX, height: u32::MAX },
        min_image_extent: Extent2D { width: 16, height: 16 },
        max_image_extent: Extent2D { width: 1024, height: 768 },
    };
    assert_eq!(choose_extent(&caps, 4000, 8), Extent2D { width: 1024, height: 16 });
    assert_eq!(choose_extent(&caps, 640, 480), Extent2D { width: 640, height: 480 });
    let fixed = SurfaceCapabilities { current_extent: Extent2D { width: 800, height: 600 }, ..caps };
    assert_eq!(choose_extent(&fixed, 1, 1), Extent2D { width: 800, height: 600 });
    assert_eq!(choose_image_count(&caps, 1), 2);
    assert_eq!(choose_image_count(&caps, 3), 3);
    assert_eq!(choose_image_count(&caps, 9), 4);
    let unbounded = SurfaceCapabilities { max_image_count: 0, ..caps };
    assert_eq!(choose_image_count(&unbounded, 9), 9);
    assert_eq!(choose_image_count(&unbounded, 1), 2);
}

#[test]
fn swapchain_frames_go_round() {
    let images = vec![Image::default(), Image { raw: 5, ..Image::default() }];
    let mut frames = SwapchainFrames::new(images, vec![11, 12], vec![21, 22], vec![31, 32]);
    assert_eq!(frames.current_slot(), 0);
    assert_eq!(frames.current_fence(), 31);
    let acquired = frames.acquired(1);
    assert_eq!(acquired.image().raw, 5);
    assert_eq!(acquired.image_index, 1);
    assert_eq!(acquired.acquire_semaphore, 11);
    assert_eq!(acquired.present_semaphore, 21);
    frames.presented(acquired.slot);
    assert_eq!(frames.current_slot(), 1);
    assert_eq!(frames.current_acquire_semaphore(), 12);
    frames.presented(1);
    assert_eq!(frames.current_slot(), 0);
}

#[test]
fn queue_families_pick_dedicated_ones() {
    // graphics+compute+transfer, compute+transfer, transfer only
    let fams = find_queue_families(&[0x7, 0x6, 0x4]).expect("complete");
    assert_eq!(fams, QueueFamilyIndices { graphics_family: Some(0), compute_family: Some(1), transfer_family: Some(2) });
    assert!(fams.is_complete());
    assert_eq!(find_queue_families(&[0x7, 0x4, 0x2, 0x4]).map(|f| f.transfer_family), Some(Some(1)));
}

#[test]
fn queue_families_fall_back_to_shared_ones() {
    // one family doing everything serves all three queues
    let one = QueueFamilyIndices { graphics_family: Some(0), compute_family: Some(0), transfer_family: Some(0) };
    assert_eq!(find_queue_families(&[0x7]), Some(one));
    // a dedicated compute family but no dedicated transfer family
    assert_eq!(
        find_queue_families(&[0x7, 0x6]),
        Some(QueueFamilyIndices { graphics_family: Some(0), compute_family: Some(1), transfer_family: Some(0) })
    );
    // no graphics at all, or no transfer at all
    assert_eq!(find_queue_families(&[0x6, 0x4]), None);
    assert_eq!(find_queue_families(&[0x3]), None);
    assert_eq!(find_queue_families(&[]), None);
}

#[test]
fn device_selection_prefers_discrete() {
    let fams = Some(QueueFamilyIndices { graphics_family: Some(0), compute_family: Some(1), transfer_family: Some(2) });
    assert_eq!(device_score(2, 16384), 17384);
    assert_eq!(device_score(1, 16384), 16484);
    assert_eq!(device_score(4, 100), 110);
    assert_eq!(device_score(2, 0x8000_0000), 1000 + i32::MIN);
    let cands = [
        DeviceCandidate { device_type: 1, max_image_dimension_2d: 4096, queue_families: fams, extensions_supported: true },
        DeviceCandidate { device_type: 2, max_image_dimension_2d: 16384, queue_families: fams, extensions_supported: false },
        DeviceCandidate { device_type: 2, max_image_dimension_2d: 8192, queue_families: fams, extensions_supported: true },
        DeviceCandidate { device_type: 2, max_image_dimension_2d: 8192, queue_families: fams, extensions_supported: true },
        DeviceCandidate { device_type: 2, max_image_dimension_2d: 32768, queue_families: None, extensions_supported: true },
    ];
    assert_eq!(select_physical_device(&cands), Some(2));
    assert_eq!(select_physical_device(&cands[4..]), None);
}

#[test]
fn device_extensions_follow_features() {
    assert_eq!(required_device_extensions(false, false, false), vec![DeviceExtension::Swapchain, DeviceExtension::Synchronization2]);
    assert_eq!(
        required_device_extensions(true, true, true),
        vec![
            DeviceExtension::Swapchain,
            DeviceExtension::Synchronization2,
            DeviceExtension::AccelerationStructure,
            DeviceExtension::RayTracingPipeline,
            DeviceExtension::DeferredHostOperations,
            DeviceExtension::ShaderAtomicFloat,
            DeviceExtension::MeshShader,
            DeviceExtension::ShaderFloatControls,
            DeviceExtension::Spirv14,
        ]
    );
    assert_eq!(required_device_extensions(false, false, true).last(), Some(&DeviceExtension::Spirv14));
}

#[test]
fn extension_names_are_matched_exactly() {
    let available = vec![b"VK_KHR_swapchain".to_vec(), b"VK_KHR_synchronization2".to_vec()];
    assert!(extensions_supported(&[b"VK_KHR_swapchain".to_vec()], &available));
    assert!(!extensions_supported(&[b"VK_KHR_swap".to_vec()], &available));
    assert!(extensions_supported(&[], &available));
}

#[test]
fn instance_extensions_follow_window_and_validation() {
    let plan = required_instance_extensions(Some(WindowSystem::Wayland), true, &[InstanceExtension::WaylandSurface]);
    assert_eq!(plan.extensions, vec![InstanceExtension::Surface, InstanceExtension::WaylandSurface, InstanceExtension::DebugUtils]);
    assert_eq!(plan.unsupported_surface, None);
    let plan = required_instance_extensions(Some(WindowSystem::Xcb), false, &[InstanceExtension::WaylandSurface]);
    assert_eq!(plan.extensions, vec![InstanceExtension::Surface]);
    assert_eq!(plan.unsupported_surface, Some(InstanceExtension::XcbSurface));
    let plan = required_instance_extensions(None, false, &[]);
    assert_eq!(plan.extensions, vec![InstanceExtension::Surface]);
}

#[test]
fn unique_families_sorts_and_dedups() {
    assert_eq!(unique_families(&[2, 0, 2]), vec![0, 2]);
    assert_eq!(unique_families(&[1, 1, 1]), vec![1]);
    assert_eq!(unique_families(&[3, 1, 2]), vec![1, 2, 3]);
}

#[test]
fn spirv_words_are_little_endian() {
    assert_eq!(spirv_words(&[0x03, 0x02, 0x23, 0x07, 1, 0, 0, 0]), vec![0x0723_0203, 1]);
    assert!(spirv_words(&[]).is_empty());
}

#[test]
fn descriptor_index_is_key_slot() {
    let b = Buffer { raw: 1, id: (3u64 << 32) | 17 };
    assert_eq!(b.descriptor_index(), 17);
}

#[test]
fn defaults_match_documentation() {
    let d = ImageDescription::default();
    assert_eq!(d.extent, Extent3D { width: 1, height: 1, depth: 1 });
    assert_eq!(d.format, Format::Rgba16Float);
    assert_eq!(d.memory_type, MemoryType::Auto);
    assert_eq!(d.usage, sgpu::ImageUsage::sampled());
    assert_eq!(d.default_view.subresources.layer_count, 1);
    let info = SgpuInititizationInfo::default();
    assert_eq!(info.app_name, "Default");
    assert!(info.enable_validation_layers);
    assert!(info.window_handle.is_none());
    let p = RasterizationPipelineDescription::default();
    assert!(p.vertex_shader.is_empty());
    assert_eq!(p.outputs.color, &[Format::Rgba16Float]);
    assert_eq!(p.depth_stencil, DepthStencilState::default());
    assert!(!DepthStencilState::disabled().depth_test);
    assert!(!DepthStencilState::read_only().depth_write);
    assert_eq!(ImageView::default().id, sgpu::types::NULL_RESOURCE_KEY);
}

#[test]
fn flags_combine_with_or() {
    let u = BufferUsage::storage() | BufferUsage::transfer_dst();
    assert_eq!(u.bits(), 0x22);
    assert!(u.contains(BufferUsage::storage()));
    assert!(!u.contains(BufferUsage::vertex()));
    assert!(BufferUsage::empty().is_empty());
}

#[test]
fn blend_modes() {
    let a = BlendMode::Alpha.attachment();
    assert!(a.blend_enable);
    assert_eq!(a.src_color_blend_factor, sgpu::pipeline::BLEND_FACTOR_SRC_ALPHA);
    assert_eq!(a.dst_alpha_blend_factor, sgpu::pipeline::BLEND_FACTOR_ZERO);
    assert!(!BlendMode::Opaque.attachment().blend_enable);
    assert_eq!(BlendMode::Premultiplied.attachment().dst_color_blend_factor, sgpu::pipeline::BLEND_FACTOR_ONE_MINUS_SRC_ALPHA);
}

#[test]
fn depth_layout_follows_store_op() {
    assert_eq!(StoreOp::Nothing.depth_stencil_layout(), vk_raw::LAYOUT_DEPTH_STENCIL_READ_ONLY_OPTIMAL);
    assert_eq!(StoreOp::Store.depth_stencil_layout(), vk_raw::LAYOUT_DEPTH_STENCIL_ATTACHMENT_OPTIMAL);
}

#[test]
fn writes_are_exactly_the_write_masks() {
    let write_bits = vk_raw::ACCESS_SHADER_STORAGE_WRITE
        | vk_raw::ACCESS_COLOR_ATTACHMENT_WRITE
        | vk_raw::ACCESS_DEPTH_STENCIL_ATTACHMENT_WRITE
        | vk_raw::ACCESS_TRANSFER_WRITE
        | vk_raw::ACCESS_HOST_WRITE
        | vk_raw::ACCESS_MEMORY_WRITE
        | vk_raw::ACCESS_ACCELERATION_STRUCTURE_WRITE;
    let accesses = [
        AccessType::Nothing,
        AccessType::IndexBuffer,
        AccessType::FragmentShaderSampledRead,
        AccessType::DepthStencilAttachmentRead,
        AccessType::ColorAttachmentRead,
        AccessType::Present,
        AccessType::RayTracingShaderAccelerationStructureRead,
        AccessType::AccelerationStructureBuildRead,
        AccessType::ColorAttachmentWrite,
        AccessType::ColorAttachmentReadWrite,
        AccessType::DepthAttachmentWriteStencilReadOnly,
        AccessType::ComputeShaderStorageWrite,
        AccessType::TransferWrite,
        AccessType::HostWrite,
        AccessType::AccelerationStructureBuildWrite,
        AccessType::AccelerationStructureBufferWrite,
        AccessType::General,
    ];
    for a in accesses {
        assert_eq!(a.is_write(), a.info().access & write_bits != 0, "{:?}", a);
    }
}

/// One recording on `ring` as the driver side does it: pick a pool (adding
/// one when none is free), allocate buffers when all are handed out, and hand
/// one out. Returns the pool index and the raw buffer.
fn record_on(ring: &mut CommandPoolRing, t: &TimelineValues, next_raw: &mut u64) -> (usize, u64) {
    let idx = match ring.acquire_pool(t) {
        PoolChoice::Existing { idx, .. } => idx,
        PoolChoice::NeedsNewPool => {
            *next_raw += 1;
            ring.push_pool(*next_raw)
        }
    };
    if ring.needs_buffers(idx) {
        let fresh: Vec<u64> = (0..8).map(|k| *next_raw * 100 + k).collect();
        *next_raw += 1;
        ring.add_buffers(idx, fresh);
    }
    (idx, ring.take_buffer(idx))
}

#[test]
fn waited_submissions_keep_reusing_one_pool() {
    let mut ring = CommandPoolRing::new(QueueType::Graphics, vec![1, 2, 3]);
    let mut raw = 10;
    let mut signaled = 0u64;
    for _ in 0..32 {
        let (idx, _) = record_on(&mut ring, &timelines(signaled, 0, 0), &mut raw);
        assert_eq!(idx, 0);
        let counter = next_signal(QueueType::Graphics, &mut signaled);
        ring.mark_submitted(idx, counter);
        // waiting on the counter: the timeline reaches its value
        assert!(poll(counter, &timelines(signaled, 0, 0)));
    }
    assert_eq!(ring.len(), 3);
}

#[test]
fn unwaited_submissions_grow_the_ring_then_pools_are_reclaimed() {
    let mut ring = CommandPoolRing::new(QueueType::Graphics, vec![1, 2, 3]);
    let mut raw = 10;
    let mut signaled = 0u64;
    let mut counters = Vec::new();
    for _ in 0..12 {
        let (idx, _) = record_on(&mut ring, &timelines(0, 0, 0), &mut raw);
        let counter = next_signal(QueueType::Graphics, &mut signaled);
        ring.mark_submitted(idx, counter);
        counters.push(counter);
    }
    assert_eq!(ring.len(), 12);
    let drained = timelines(signaled, 0, 0);
    assert!(counters.iter().all(|&c| poll(c, &drained)));
    for _ in 0..12 {
        let (idx, _) = record_on(&mut ring, &drained, &mut raw);
        let counter = next_signal(QueueType::Graphics, &mut signaled);
        ring.mark_submitted(idx, counter);
    }
    assert_eq!(ring.len(), 12);
}
