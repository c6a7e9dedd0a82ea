use ash::vk;
use sgpu::pipeline::{
    BLEND_FACTOR_ONE, BLEND_FACTOR_ONE_MINUS_SRC_ALPHA, BLEND_FACTOR_SRC_ALPHA, BLEND_FACTOR_ZERO,
    BLEND_OP_ADD, COLOR_COMPONENTS_RGBA,
};
use sgpu::swapchain::{COLOR_SPACE_SRGB_NONLINEAR, PRESENT_MODE_FIFO, PRESENT_MODE_MAILBOX};
use sgpu::vk_raw;
use sgpu::{
    AccessType, BufferUsage, CompareOp, CullMode, Filter, Format, FrontFace, ImageAspect,
    ImageCreateFlags, ImageType, ImageUsage, ImageViewType, LoadOp, PipelineStage, PolygonMode,
    PrimitiveTopology, RenderingFlags, ResolveMode, SampleCount, StoreOp,
};
use slotmap::Key;

#[test]
fn stage_bits_match_vulkan() {
    type S = vk::PipelineStageFlags2;
    let pairs: [(PipelineStage, S); 26] = [
        (PipelineStage::none(), S::NONE),
        (PipelineStage::top_of_pipe(), S::TOP_OF_PIPE),
        (PipelineStage::bottom_of_pipe(), S::BOTTOM_OF_PIPE),
        (PipelineStage::draw_indirect(), S::DRAW_INDIRECT),
        (PipelineStage::vertex_input(), S::VERTEX_INPUT),
        (PipelineStage::vertex_shader(), S::VERTEX_SHADER),
        (PipelineStage::tessellation_control_shader(), S::TESSELLATION_CONTROL_SHADER),
        (PipelineStage::tessellation_evaluation_shader(), S::TESSELLATION_EVALUATION_SHADER),
        (PipelineStage::geometry_shader(), S::GEOMETRY_SHADER),
        (PipelineStage::fragment_shader(), S::FRAGMENT_SHADER),
        (PipelineStage::early_fragment_tests(), S::EARLY_FRAGMENT_TESTS),
        (PipelineStage::late_fragment_tests(), S::LATE_FRAGMENT_TESTS),
        (PipelineStage::color_attachment_output(), S::COLOR_ATTACHMENT_OUTPUT),
        (PipelineStage::compute_shader(), S::COMPUTE_SHADER),
        (PipelineStage::all_transfer(), S::ALL_TRANSFER),
        (PipelineStage::transfer(), S::TRANSFER),
        (PipelineStage::copy(), S::COPY),
        (PipelineStage::resolve(), S::RESOLVE),
        (PipelineStage::blit(), S::BLIT),
        (PipelineStage::clear(), S::CLEAR),
        (PipelineStage::ray_tracing_shader(), S::RAY_TRACING_SHADER_KHR),
        (PipelineStage::acceleration_structure_build(), S::ACCELERATION_STRUCTURE_BUILD_KHR),
        (PipelineStage::acceleration_structure_copy(), S::ACCELERATION_STRUCTURE_COPY_KHR),
        (PipelineStage::host(), S::HOST),
        (PipelineStage::all_graphics(), S::ALL_GRAPHICS),
        (PipelineStage::all_commands(), S::ALL_COMMANDS),
    ];
    for (ours, theirs) in pairs {
        assert_eq!(ours.bits(), theirs.as_raw());
    }
    assert_eq!(vk_raw::STAGE_INDEX_INPUT, S::INDEX_INPUT.as_raw());
    assert_eq!(vk_raw::STAGE_FRAGMENT_TESTS, (S::EARLY_FRAGMENT_TESTS | S::LATE_FRAGMENT_TESTS).as_raw());
}

#[test]
fn access_table_matches_vulkan() {
    type S = vk::PipelineStageFlags2;
    type A = vk::AccessFlags2;
    type L = vk::ImageLayout;
    let rows: [(AccessType, S, A, L); 12] = [
        (AccessType::Nothing, S::TOP_OF_PIPE, A::NONE, L::UNDEFINED),
        (AccessType::IndexBuffer, S::INDEX_INPUT, A::INDEX_READ, L::UNDEFINED),
        (AccessType::FragmentShaderSampledRead, S::FRAGMENT_SHADER, A::SHADER_SAMPLED_READ, L::SHADER_READ_ONLY_OPTIMAL),
        (AccessType::DepthStencilAttachmentRead, S::EARLY_FRAGMENT_TESTS | S::LATE_FRAGMENT_TESTS, A::DEPTH_STENCIL_ATTACHMENT_READ, L::DEPTH_STENCIL_READ_ONLY_OPTIMAL),
        (AccessType::TransferRead, S::COPY, A::TRANSFER_READ, L::TRANSFER_SRC_OPTIMAL),
        (AccessType::Present, S::BOTTOM_OF_PIPE, A::NONE, L::PRESENT_SRC_KHR),
        (AccessType::ColorAttachmentReadWrite, S::COLOR_ATTACHMENT_OUTPUT, A::COLOR_ATTACHMENT_READ | A::COLOR_ATTACHMENT_WRITE, L::COLOR_ATTACHMENT_OPTIMAL),
        (AccessType::DepthAttachmentWriteStencilReadOnly, S::EARLY_FRAGMENT_TESTS | S::LATE_FRAGMENT_TESTS, A::DEPTH_STENCIL_ATTACHMENT_WRITE | A::DEPTH_STENCIL_ATTACHMENT_READ, L::DEPTH_ATTACHMENT_STENCIL_READ_ONLY_OPTIMAL),
        (AccessType::StencilAttachmentWriteDepthReadOnly, S::EARLY_FRAGMENT_TESTS | S::LATE_FRAGMENT_TESTS, A::DEPTH_STENCIL_ATTACHMENT_WRITE | A::DEPTH_STENCIL_ATTACHMENT_READ, L::DEPTH_READ_ONLY_STENCIL_ATTACHMENT_OPTIMAL),
        (AccessType::TransferWrite, S::COPY, A::TRANSFER_WRITE, L::TRANSFER_DST_OPTIMAL),
        (AccessType::RayTracingShaderAccelerationStructureRead, S::RAY_TRACING_SHADER_KHR, A::ACCELERATION_STRUCTURE_READ_KHR, L::UNDEFINED),
        (AccessType::General, S::ALL_COMMANDS, A::MEMORY_READ | A::MEMORY_WRITE, L::GENERAL),
    ];
    for (access, stage, mask, layout) in rows {
        let info = access.info();
        assert_eq!(info.stage, stage.as_raw(), "{:?}", access);
        assert_eq!(info.access, mask.as_raw(), "{:?}", access);
        assert_eq!(info.image_layout, layout.as_raw(), "{:?}", access);
    }
    assert_eq!(AccessType::AccelerationStructureBuildWrite.info().access, A::ACCELERATION_STRUCTURE_WRITE_KHR.as_raw());
    assert_eq!(AccessType::ComputeShaderStorageWrite.info().access, A::SHADER_STORAGE_WRITE.as_raw());
    assert_eq!(AccessType::ComputeShaderStorageRead.info().access, A::SHADER_STORAGE_READ.as_raw());
    assert_eq!(AccessType::IndirectBuffer.info().access, A::INDIRECT_COMMAND_READ.as_raw());
    assert_eq!(AccessType::VertexBuffer.info().access, A::VERTEX_ATTRIBUTE_READ.as_raw());
    assert_eq!(AccessType::AnyShaderUniformRead.info().access, A::UNIFORM_READ.as_raw());
    assert_eq!(AccessType::FragmentShaderColorInputAttachmentRead.info().access, A::INPUT_ATTACHMENT_READ.as_raw());
    assert_eq!(AccessType::HostRead.info().access, A::HOST_READ.as_raw());
    assert_eq!(AccessType::HostWrite.info().access, A::HOST_WRITE.as_raw());
    assert_eq!(vk_raw::LAYOUT_SHARED_PRESENT, L::SHARED_PRESENT_KHR.as_raw());
    assert_eq!(vk_raw::LAYOUT_DEPTH_STENCIL_ATTACHMENT_OPTIMAL, L::DEPTH_STENCIL_ATTACHMENT_OPTIMAL.as_raw());
    assert_eq!(vk_raw::LAYOUT_COLOR_ATTACHMENT_OPTIMAL, L::COLOR_ATTACHMENT_OPTIMAL.as_raw());
}

#[test]
fn resource_flags_match_vulkan() {
    assert_eq!(BufferUsage::storage().bits(), vk::BufferUsageFlags::STORAGE_BUFFER.as_raw());
    assert_eq!(BufferUsage::vertex().bits(), vk::BufferUsageFlags::VERTEX_BUFFER.as_raw());
    assert_eq!(BufferUsage::index().bits(), vk::BufferUsageFlags::INDEX_BUFFER.as_raw());
    assert_eq!(BufferUsage::uniform().bits(), vk::BufferUsageFlags::UNIFORM_BUFFER.as_raw());
    assert_eq!(BufferUsage::indirect().bits(), vk::BufferUsageFlags::INDIRECT_BUFFER.as_raw());
    assert_eq!(BufferUsage::transfer_src().bits(), vk::BufferUsageFlags::TRANSFER_SRC.as_raw());
    assert_eq!(BufferUsage::transfer_dst().bits(), vk::BufferUsageFlags::TRANSFER_DST.as_raw());

    assert_eq!(ImageUsage::transfer_src().bits(), vk::ImageUsageFlags::TRANSFER_SRC.as_raw());
    assert_eq!(ImageUsage::transfer_dst().bits(), vk::ImageUsageFlags::TRANSFER_DST.as_raw());
    assert_eq!(ImageUsage::sampled().bits(), vk::ImageUsageFlags::SAMPLED.as_raw());
    assert_eq!(ImageUsage::storage().bits(), vk::ImageUsageFlags::STORAGE.as_raw());
    assert_eq!(ImageUsage::color_attachment().bits(), vk::ImageUsageFlags::COLOR_ATTACHMENT.as_raw());
    assert_eq!(ImageUsage::depth_stencil_attachment().bits(), vk::ImageUsageFlags::DEPTH_STENCIL_ATTACHMENT.as_raw());

    type C = vk::ImageCreateFlags;
    assert_eq!(ImageCreateFlags::none().bits(), 0);
    assert_eq!(ImageCreateFlags::cube_compatible().bits(), C::CUBE_COMPATIBLE.as_raw());
    assert_eq!(ImageCreateFlags::array_2d_compatible().bits(), C::TYPE_2D_ARRAY_COMPATIBLE.as_raw());
    assert_eq!(ImageCreateFlags::mutable_format().bits(), C::MUTABLE_FORMAT.as_raw());
    assert_eq!(ImageCreateFlags::alias().bits(), C::ALIAS.as_raw());
    assert_eq!(ImageCreateFlags::sparse_binding().bits(), C::SPARSE_BINDING.as_raw());
    assert_eq!(ImageCreateFlags::sparse_residency().bits(), C::SPARSE_RESIDENCY.as_raw());
    assert_eq!(ImageCreateFlags::sparse_aliased().bits(), C::SPARSE_ALIASED.as_raw());
    assert_eq!(ImageCreateFlags::block_texel_view_compatible().bits(), C::BLOCK_TEXEL_VIEW_COMPATIBLE.as_raw());
    assert_eq!(ImageCreateFlags::extended_usage().bits(), C::EXTENDED_USAGE.as_raw());
    assert_eq!(ImageCreateFlags::protected().bits(), C::PROTECTED.as_raw());
    assert_eq!(ImageCreateFlags::disjoint().bits(), C::DISJOINT.as_raw());
    assert_eq!(ImageCreateFlags::corner_sampled_nv().bits(), C::CORNER_SAMPLED_NV.as_raw());

    assert_eq!(ImageAspect::color().bits(), vk::ImageAspectFlags::COLOR.as_raw());
    assert_eq!(ImageAspect::depth().bits(), vk::ImageAspectFlags::DEPTH.as_raw());
    assert_eq!(ImageAspect::stencil().bits(), vk::ImageAspectFlags::STENCIL.as_raw());

    assert_eq!(RenderingFlags::none().bits(), 0);
    assert_eq!(RenderingFlags::contents_secondary_command_buffers().bits(), vk::RenderingFlags::CONTENTS_SECONDARY_COMMAND_BUFFERS.as_raw());
    assert_eq!(RenderingFlags::suspending().bits(), vk::RenderingFlags::SUSPENDING.as_raw());
    assert_eq!(RenderingFlags::resuming().bits(), vk::RenderingFlags::RESUMING.as_raw());
}

#[test]
fn formats_match_vulkan() {
    let pairs: [(Format, vk::Format); 16] = [
        (Format::Rgba8Unorm, vk::Format::R8G8B8A8_UNORM),
        (Format::Bgra8Unorm, vk::Format::B8G8R8A8_UNORM),
        (Format::Rgb565Unorm, vk::Format::R5G6B5_UNORM_PACK16),
        (Format::R32Uint, vk::Format::R32_UINT),
        (Format::Rgba8Uint, vk::Format::R8G8B8A8_UINT),
        (Format::Rgba32Sint, vk::Format::R32G32B32A32_SINT),
        (Format::Rgba16Float, vk::Format::R16G16B16A16_SFLOAT),
        (Format::Rg32Float, vk::Format::R32G32_SFLOAT),
        (Format::Rgb32Float, vk::Format::R32G32B32_SFLOAT),
        (Format::Rgba32Float, vk::Format::R32G32B32A32_SFLOAT),
        (Format::R32Float, vk::Format::R32_SFLOAT),
        (Format::D32Float, vk::Format::D32_SFLOAT),
        (Format::D24UnormS8Uint, vk::Format::D24_UNORM_S8_UINT),
        (Format::D16Unorm, vk::Format::D16_UNORM),
        (Format::BC1RgbaUnorm, vk::Format::BC1_RGBA_UNORM_BLOCK),
        (Format::BC7Unorm, vk::Format::BC7_UNORM_BLOCK),
    ];
    for (ours, theirs) in pairs {
        assert_eq!(ours.vk_format(), theirs.as_raw(), "{:?}", ours);
    }
}

#[test]
fn other_enumerants_match_vulkan() {
    assert_eq!(PRESENT_MODE_MAILBOX, vk::PresentModeKHR::MAILBOX.as_raw());
    assert_eq!(PRESENT_MODE_FIFO, vk::PresentModeKHR::FIFO.as_raw());
    assert_eq!(COLOR_SPACE_SRGB_NONLINEAR, vk::ColorSpaceKHR::SRGB_NONLINEAR.as_raw());
    assert_eq!(sgpu::device::QUEUE_GRAPHICS, vk::QueueFlags::GRAPHICS.as_raw());
    assert_eq!(sgpu::device::QUEUE_COMPUTE, vk::QueueFlags::COMPUTE.as_raw());
    assert_eq!(sgpu::device::QUEUE_TRANSFER, vk::QueueFlags::TRANSFER.as_raw());
    assert_eq!(sgpu::device::DEVICE_TYPE_DISCRETE_GPU, vk::PhysicalDeviceType::DISCRETE_GPU.as_raw());
    assert_eq!(sgpu::device::DEVICE_TYPE_INTEGRATED_GPU, vk::PhysicalDeviceType::INTEGRATED_GPU.as_raw());
    assert_eq!(BLEND_FACTOR_ZERO, vk::BlendFactor::ZERO.as_raw());
    assert_eq!(BLEND_FACTOR_ONE, vk::BlendFactor::ONE.as_raw());
    assert_eq!(BLEND_FACTOR_SRC_ALPHA, vk::BlendFactor::SRC_ALPHA.as_raw());
    assert_eq!(BLEND_FACTOR_ONE_MINUS_SRC_ALPHA, vk::BlendFactor::ONE_MINUS_SRC_ALPHA.as_raw());
    assert_eq!(BLEND_OP_ADD, vk::BlendOp::ADD.as_raw());
    let rgba = vk::ColorComponentFlags::R | vk::ColorComponentFlags::G | vk::ColorComponentFlags::B | vk::ColorComponentFlags::A;
    assert_eq!(COLOR_COMPONENTS_RGBA, rgba.as_raw());
    assert_eq!(vk_raw::QUEUE_FAMILY_IGNORED, vk::QUEUE_FAMILY_IGNORED);
}

#[test]
fn null_resource_key_matches_slotmap() {
    assert_eq!(sgpu::types::NULL_RESOURCE_KEY, slotmap::DefaultKey::null().data().as_ffi());
}

#[test]
fn description_enums_match_vulkan() {
    assert_eq!(ImageType::Type1D.vk_value(), vk::ImageType::TYPE_1D.as_raw());
    assert_eq!(ImageType::Type2D.vk_value(), vk::ImageType::TYPE_2D.as_raw());
    assert_eq!(ImageType::Type3D.vk_value(), vk::ImageType::TYPE_3D.as_raw());

    type SC = vk::SampleCountFlags;
    let samples: [(SampleCount, SC); 7] = [
        (SampleCount::Type1, SC::TYPE_1),
        (SampleCount::Type2, SC::TYPE_2),
        (SampleCount::Type4, SC::TYPE_4),
        (SampleCount::Type8, SC::TYPE_8),
        (SampleCount::Type16, SC::TYPE_16),
        (SampleCount::Type32, SC::TYPE_32),
        (SampleCount::Type64, SC::TYPE_64),
    ];
    for (ours, theirs) in samples {
        assert_eq!(ours.vk_value(), theirs.as_raw(), "{:?}", ours);
    }

    type V = vk::ImageViewType;
    let views: [(ImageViewType, V); 7] = [
        (ImageViewType::Type1D, V::TYPE_1D),
        (ImageViewType::Type2D, V::TYPE_2D),
        (ImageViewType::Type3D, V::TYPE_3D),
        (ImageViewType::Cube, V::CUBE),
        (ImageViewType::Type1DArray, V::TYPE_1D_ARRAY),
        (ImageViewType::Type2DArray, V::TYPE_2D_ARRAY),
        (ImageViewType::CubeArray, V::CUBE_ARRAY),
    ];
    for (ours, theirs) in views {
        assert_eq!(ours.vk_value(), theirs.as_raw(), "{:?}", ours);
    }

    assert_eq!(Filter::Nearest.vk_value(), vk::Filter::NEAREST.as_raw());
    assert_eq!(Filter::Linear.vk_value(), vk::Filter::LINEAR.as_raw());
}

#[test]
fn attachment_ops_match_vulkan() {
    assert_eq!(LoadOp::Load.vk_value(), vk::AttachmentLoadOp::LOAD.as_raw());
    assert_eq!(LoadOp::Clear.vk_value(), vk::AttachmentLoadOp::CLEAR.as_raw());
    assert_eq!(LoadOp::DontCare.vk_value(), vk::AttachmentLoadOp::DONT_CARE.as_raw());
    assert_eq!(StoreOp::Store.vk_value(), vk::AttachmentStoreOp::STORE.as_raw());
    assert_eq!(StoreOp::DontCare.vk_value(), vk::AttachmentStoreOp::DONT_CARE.as_raw());
    assert_eq!(StoreOp::Nothing.vk_value(), vk::AttachmentStoreOp::NONE.as_raw());
    type R = vk::ResolveModeFlags;
    assert_eq!(ResolveMode::Nothing.vk_value(), R::NONE.as_raw());
    assert_eq!(ResolveMode::SampleZero.vk_value(), R::SAMPLE_ZERO.as_raw());
    assert_eq!(ResolveMode::Average.vk_value(), R::AVERAGE.as_raw());
    assert_eq!(ResolveMode::Min.vk_value(), R::MIN.as_raw());
    assert_eq!(ResolveMode::Max.vk_value(), R::MAX.as_raw());
}

#[test]
fn pipeline_state_enums_match_vulkan() {
    type C = vk::CompareOp;
    let compares: [(CompareOp, C); 8] = [
        (CompareOp::Never, C::NEVER),
        (CompareOp::Less, C::LESS),
        (CompareOp::Equal, C::EQUAL),
        (CompareOp::LessOrEqual, C::LESS_OR_EQUAL),
        (CompareOp::Greater, C::GREATER),
        (CompareOp::NotEqual, C::NOT_EQUAL),
        (CompareOp::GreaterOrEqual, C::GREATER_OR_EQUAL),
        (CompareOp::Always, C::ALWAYS),
    ];
    for (ours, theirs) in compares {
        assert_eq!(ours.vk_value(), theirs.as_raw(), "{:?}", ours);
    }

    assert_eq!(CullMode::Nothing.vk_value(), vk::CullModeFlags::NONE.as_raw());
    assert_eq!(CullMode::Front.vk_value(), vk::CullModeFlags::FRONT.as_raw());
    assert_eq!(CullMode::Back.vk_value(), vk::CullModeFlags::BACK.as_raw());
    assert_eq!(CullMode::FrontAndBack.vk_value(), vk::CullModeFlags::FRONT_AND_BACK.as_raw());
    assert_eq!(FrontFace::CounterClockwise.vk_value(), vk::FrontFace::COUNTER_CLOCKWISE.as_raw());
    assert_eq!(FrontFace::Clockwise.vk_value(), vk::FrontFace::CLOCKWISE.as_raw());
    assert_eq!(PolygonMode::Fill.vk_value(), vk::PolygonMode::FILL.as_raw());
    assert_eq!(PolygonMode::Line.vk_value(), vk::PolygonMode::LINE.as_raw());
    assert_eq!(PolygonMode::Point.vk_value(), vk::PolygonMode::POINT.as_raw());

    type T = vk::PrimitiveTopology;
    let topologies: [(PrimitiveTopology, T); 5] = [
        (PrimitiveTopology::TriangleList, T::TRIANGLE_LIST),
        (PrimitiveTopology::TriangleStrip, T::TRIANGLE_STRIP),
        (PrimitiveTopology::LineList, T::LINE_LIST),
        (PrimitiveTopology::LineStrip, T::LINE_STRIP),
        (PrimitiveTopology::PointList, T::POINT_LIST),
    ];
    for (ours, theirs) in topologies {
        assert_eq!(ours.vk_value(), theirs.as_raw(), "{:?}", ours);
    }
}
