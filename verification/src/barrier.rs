use vstd::prelude::*;

use crate::types::ImageView;
use crate::vk_raw::{ACCESS_ACCELERATION_STRUCTURE_READ, ACCESS_ACCELERATION_STRUCTURE_WRITE, ACCESS_COLOR_ATTACHMENT_READ, ACCESS_COLOR_ATTACHMENT_READ_WRITE, ACCESS_COLOR_ATTACHMENT_WRITE, ACCESS_DEPTH_STENCIL_ATTACHMENT_READ, ACCESS_DEPTH_STENCIL_ATTACHMENT_READ_WRITE, ACCESS_DEPTH_STENCIL_ATTACHMENT_WRITE, ACCESS_HOST_READ, ACCESS_HOST_WRITE, ACCESS_INDEX_READ, ACCESS_INDIRECT_COMMAND_READ, ACCESS_INPUT_ATTACHMENT_READ, ACCESS_MEMORY_READ_WRITE, ACCESS_MEMORY_WRITE, ACCESS_NONE, ACCESS_SHADER_SAMPLED_READ, ACCESS_SHADER_STORAGE_READ, ACCESS_SHADER_STORAGE_WRITE, ACCESS_TRANSFER_READ, ACCESS_TRANSFER_WRITE, ACCESS_UNIFORM_READ, ACCESS_VERTEX_ATTRIBUTE_READ, LAYOUT_COLOR_ATTACHMENT_OPTIMAL, LAYOUT_DEPTH_ATTACHMENT_STENCIL_READ_ONLY_OPTIMAL, LAYOUT_DEPTH_READ_ONLY_STENCIL_ATTACHMENT_OPTIMAL, LAYOUT_DEPTH_STENCIL_ATTACHMENT_OPTIMAL, LAYOUT_DEPTH_STENCIL_READ_ONLY_OPTIMAL, LAYOUT_GENERAL, LAYOUT_PRESENT_SRC, LAYOUT_SHADER_READ_ONLY_OPTIMAL, LAYOUT_SHARED_PRESENT, LAYOUT_TRANSFER_DST_OPTIMAL, LAYOUT_TRANSFER_SRC_OPTIMAL, LAYOUT_UNDEFINED, STAGE_ACCELERATION_STRUCTURE_BUILD, STAGE_ALL_COMMANDS, STAGE_BOTTOM_OF_PIPE, STAGE_COLOR_ATTACHMENT_OUTPUT, STAGE_COMPUTE_SHADER, STAGE_COPY, STAGE_DRAW_INDIRECT, STAGE_FRAGMENT_SHADER, STAGE_FRAGMENT_TESTS, STAGE_GEOMETRY_SHADER, STAGE_HOST, STAGE_INDEX_INPUT, STAGE_RAY_TRACING_SHADER, STAGE_TESSELLATION_CONTROL_SHADER, STAGE_TESSELLATION_EVALUATION_SHADER, STAGE_TOP_OF_PIPE, STAGE_VERTEX_INPUT, STAGE_VERTEX_SHADER};

verus! {

/// AccessType, maps to `VkAccessFlags2`.
/// An enum so that image layouts can be inferred from it.
#[derive(Debug, Copy, Clone, PartialEq, Eq, Structural)]
pub enum AccessType {
    Nothing,

    IndirectBuffer,
    IndexBuffer,
    VertexBuffer,
    VertexShaderUniformRead,
    VertexShaderSampledRead,
    VertexShaderStorageRead,

    // Tessellation control
    TessellationControlShaderUniformRead,
    TessellationControlShaderSampledRead,
    TessellationControlShaderStorageRead,

    // Tessellation evaluation
    TessellationEvaluationShaderUniformRead,
    TessellationEvaluationShaderSampledRead,
    TessellationEvaluationShaderStorageRead,

    // Geometry
    GeometryShaderUniformRead,
    GeometryShaderSampledRead,
    GeometryShaderStorageRead,

    // Fragment
    FragmentShaderUniformRead,
    FragmentShaderSampledRead,
    FragmentShaderColorInputAttachmentRead,
    FragmentShaderDepthStencilInputAttachmentRead,
    FragmentShaderStorageRead,

    // Fixed-function attachment reads
    ColorAttachmentRead,
    DepthStencilAttachmentRead,

    // Compute
    ComputeShaderUniformRead,
    ComputeShaderSampledRead,
    ComputeShaderStorageRead,

    // Any shader
    AnyShaderUniformRead,
    AnyShaderSampledRead,
    AnyShaderStorageRead,

    // Transfer / host
    TransferRead,
    HostRead,

    // Present
    Present,

    // writes
    VertexShaderStorageWrite,
    TessellationControlShaderStorageWrite,
    TessellationEvaluationShaderStorageWrite,
    GeometryShaderStorageWrite,
    FragmentShaderStorageWrite,
    ColorAttachmentWrite,
    ColorAttachmentReadWrite,
    DepthStencilAttachmentWrite,
    DepthAttachmentWriteStencilReadOnly,
    StencilAttachmentWriteDepthReadOnly,
    ComputeShaderStorageWrite,
    AnyShaderStorageWrite,
    TransferWrite,
    HostWrite,
    RayTracingShaderSampledRead,
    RayTracingShaderStorageRead,
    RayTracingShaderColorInputAttachmentRead,
    RayTracingShaderDepthStencilInputAttachmentRead,
    RayTracingShaderAccelerationStructureRead,
    AccelerationStructureBuildWrite,
    AccelerationStructureBuildRead,
    AccelerationStructureBufferWrite,
    General,
}

impl Default for AccessType {
    fn default() -> (r: Self)
        ensures
            r == AccessType::Nothing,
    {
        AccessType::Nothing
    }
}

/// The pipeline stages, access mask and image layout of one kind of access.
#[derive(Debug, Copy, Clone, PartialEq, Eq, Structural)]
pub struct AccessInfo {
    pub stage: u64,
    pub access: u64,
    pub image_layout: i32,
}

impl AccessType {
    /// The stages, access mask and optimal layout of this access.
    pub open spec fn spec_info(self) -> AccessInfo {
        match self {
            AccessType::Nothing => AccessInfo { stage: STAGE_TOP_OF_PIPE, access: ACCESS_NONE, image_layout: LAYOUT_UNDEFINED },
            AccessType::IndirectBuffer => AccessInfo { stage: STAGE_DRAW_INDIRECT, access: ACCESS_INDIRECT_COMMAND_READ, image_layout: LAYOUT_UNDEFINED },
            AccessType::IndexBuffer => AccessInfo { stage: STAGE_INDEX_INPUT, access: ACCESS_INDEX_READ, image_layout: LAYOUT_UNDEFINED },
            AccessType::VertexBuffer => AccessInfo { stage: STAGE_VERTEX_INPUT, access: ACCESS_VERTEX_ATTRIBUTE_READ, image_layout: LAYOUT_UNDEFINED },
            AccessType::VertexShaderUniformRead => AccessInfo { stage: STAGE_VERTEX_SHADER, access: ACCESS_UNIFORM_READ, image_layout: LAYOUT_UNDEFINED },
            AccessType::VertexShaderSampledRead => AccessInfo { stage: STAGE_VERTEX_SHADER, access: ACCESS_SHADER_SAMPLED_READ, image_layout: LAYOUT_SHADER_READ_ONLY_OPTIMAL },
            AccessType::VertexShaderStorageRead => AccessInfo { stage: STAGE_VERTEX_SHADER, access: ACCESS_SHADER_STORAGE_READ, image_layout: LAYOUT_GENERAL },
            AccessType::TessellationControlShaderUniformRead => AccessInfo { stage: STAGE_TESSELLATION_CONTROL_SHADER, access: ACCESS_UNIFORM_READ, image_layout: LAYOUT_UNDEFINED },
            AccessType::TessellationControlShaderSampledRead => AccessInfo { stage: STAGE_TESSELLATION_CONTROL_SHADER, access: ACCESS_SHADER_SAMPLED_READ, image_layout: LAYOUT_SHADER_READ_ONLY_OPTIMAL },
            AccessType::TessellationControlShaderStorageRead => AccessInfo { stage: STAGE_TESSELLATION_CONTROL_SHADER, access: ACCESS_SHADER_STORAGE_READ, image_layout: LAYOUT_GENERAL },
            AccessType::TessellationEvaluationShaderUniformRead => AccessInfo { stage: STAGE_TESSELLATION_EVALUATION_SHADER, access: ACCESS_UNIFORM_READ, image_layout: LAYOUT_UNDEFINED },
            AccessType::TessellationEvaluationShaderSampledRead => AccessInfo { stage: STAGE_TESSELLATION_EVALUATION_SHADER, access: ACCESS_SHADER_SAMPLED_READ, image_layout: LAYOUT_SHADER_READ_ONLY_OPTIMAL },
            AccessType::TessellationEvaluationShaderStorageRead => AccessInfo { stage: STAGE_TESSELLATION_EVALUATION_SHADER, access: ACCESS_SHADER_STORAGE_READ, image_layout: LAYOUT_GENERAL },
            AccessType::GeometryShaderUniformRead => AccessInfo { stage: STAGE_GEOMETRY_SHADER, access: ACCESS_UNIFORM_READ, image_layout: LAYOUT_UNDEFINED },
            AccessType::GeometryShaderSampledRead => AccessInfo { stage: STAGE_GEOMETRY_SHADER, access: ACCESS_SHADER_SAMPLED_READ, image_layout: LAYOUT_SHADER_READ_ONLY_OPTIMAL },
            AccessType::GeometryShaderStorageRead => AccessInfo { stage: STAGE_GEOMETRY_SHADER, access: ACCESS_SHADER_STORAGE_READ, image_layout: LAYOUT_GENERAL },
            AccessType::FragmentShaderUniformRead => AccessInfo { stage: STAGE_FRAGMENT_SHADER, access: ACCESS_UNIFORM_READ, image_layout: LAYOUT_UNDEFINED },
            AccessType::FragmentShaderSampledRead => AccessInfo { stage: STAGE_FRAGMENT_SHADER, access: ACCESS_SHADER_SAMPLED_READ, image_layout: LAYOUT_SHADER_READ_ONLY_OPTIMAL },
            AccessType::FragmentShaderColorInputAttachmentRead => AccessInfo { stage: STAGE_FRAGMENT_SHADER, access: ACCESS_INPUT_ATTACHMENT_READ, image_layout: LAYOUT_SHADER_READ_ONLY_OPTIMAL },
            AccessType::FragmentShaderDepthStencilInputAttachmentRead => AccessInfo { stage: STAGE_FRAGMENT_SHADER, access: ACCESS_INPUT_ATTACHMENT_READ, image_layout: LAYOUT_DEPTH_STENCIL_READ_ONLY_OPTIMAL },
            AccessType::FragmentShaderStorageRead => AccessInfo { stage: STAGE_FRAGMENT_SHADER, access: ACCESS_SHADER_STORAGE_READ, image_layout: LAYOUT_GENERAL },
            AccessType::ColorAttachmentRead => AccessInfo { stage: STAGE_COLOR_ATTACHMENT_OUTPUT, access: ACCESS_COLOR_ATTACHMENT_READ, image_layout: LAYOUT_COLOR_ATTACHMENT_OPTIMAL },
            AccessType::DepthStencilAttachmentRead => AccessInfo { stage: STAGE_FRAGMENT_TESTS, access: ACCESS_DEPTH_STENCIL_ATTACHMENT_READ, image_layout: LAYOUT_DEPTH_STENCIL_READ_ONLY_OPTIMAL },
            AccessType::ComputeShaderUniformRead => AccessInfo { stage: STAGE_COMPUTE_SHADER, access: ACCESS_UNIFORM_READ, image_layout: LAYOUT_UNDEFINED },
            AccessType::ComputeShaderSampledRead => AccessInfo { stage: STAGE_COMPUTE_SHADER, access: ACCESS_SHADER_SAMPLED_READ, image_layout: LAYOUT_SHADER_READ_ONLY_OPTIMAL },
            AccessType::ComputeShaderStorageRead => AccessInfo { stage: STAGE_COMPUTE_SHADER, access: ACCESS_SHADER_STORAGE_READ, image_layout: LAYOUT_GENERAL },
            AccessType::AnyShaderUniformRead => AccessInfo { stage: STAGE_ALL_COMMANDS, access: ACCESS_UNIFORM_READ, image_layout: LAYOUT_UNDEFINED },
            AccessType::AnyShaderSampledRead => AccessInfo { stage: STAGE_ALL_COMMANDS, access: ACCESS_SHADER_SAMPLED_READ, image_layout: LAYOUT_SHADER_READ_ONLY_OPTIMAL },
            AccessType::AnyShaderStorageRead => AccessInfo { stage: STAGE_ALL_COMMANDS, access: ACCESS_SHADER_STORAGE_READ, image_layout: LAYOUT_GENERAL },
            AccessType::TransferRead => AccessInfo { stage: STAGE_COPY, access: ACCESS_TRANSFER_READ, image_layout: LAYOUT_TRANSFER_SRC_OPTIMAL },
            AccessType::HostRead => AccessInfo { stage: STAGE_HOST, access: ACCESS_HOST_READ, image_layout: LAYOUT_GENERAL },
            AccessType::Present => AccessInfo { stage: STAGE_BOTTOM_OF_PIPE, access: ACCESS_NONE, image_layout: LAYOUT_PRESENT_SRC },
            AccessType::VertexShaderStorageWrite => AccessInfo { stage: STAGE_VERTEX_SHADER, access: ACCESS_SHADER_STORAGE_WRITE, image_layout: LAYOUT_GENERAL },
            AccessType::TessellationControlShaderStorageWrite => AccessInfo { stage: STAGE_TESSELLATION_CONTROL_SHADER, access: ACCESS_SHADER_STORAGE_WRITE, image_layout: LAYOUT_GENERAL },
            AccessType::TessellationEvaluationShaderStorageWrite => AccessInfo { stage: STAGE_TESSELLATION_EVALUATION_SHADER, access: ACCESS_SHADER_STORAGE_WRITE, image_layout: LAYOUT_GENERAL },
            AccessType::GeometryShaderStorageWrite => AccessInfo { stage: STAGE_GEOMETRY_SHADER, access: ACCESS_SHADER_STORAGE_WRITE, image_layout: LAYOUT_GENERAL },
            AccessType::FragmentShaderStorageWrite => AccessInfo { stage: STAGE_FRAGMENT_SHADER, access: ACCESS_SHADER_STORAGE_WRITE, image_layout: LAYOUT_GENERAL },
            AccessType::ColorAttachmentWrite => AccessInfo { stage: STAGE_COLOR_ATTACHMENT_OUTPUT, access: ACCESS_COLOR_ATTACHMENT_WRITE, image_layout: LAYOUT_COLOR_ATTACHMENT_OPTIMAL },
            AccessType::ColorAttachmentReadWrite => AccessInfo { stage: STAGE_COLOR_ATTACHMENT_OUTPUT, access: ACCESS_COLOR_ATTACHMENT_READ_WRITE, image_layout: LAYOUT_COLOR_ATTACHMENT_OPTIMAL },
            AccessType::DepthStencilAttachmentWrite => AccessInfo { stage: STAGE_FRAGMENT_TESTS, access: ACCESS_DEPTH_STENCIL_ATTACHMENT_WRITE, image_layout: LAYOUT_DEPTH_STENCIL_ATTACHMENT_OPTIMAL },
            AccessType::DepthAttachmentWriteStencilReadOnly => AccessInfo { stage: STAGE_FRAGMENT_TESTS, access: ACCESS_DEPTH_STENCIL_ATTACHMENT_READ_WRITE, image_layout: LAYOUT_DEPTH_ATTACHMENT_STENCIL_READ_ONLY_OPTIMAL },
            AccessType::StencilAttachmentWriteDepthReadOnly => AccessInfo { stage: STAGE_FRAGMENT_TESTS, access: ACCESS_DEPTH_STENCIL_ATTACHMENT_READ_WRITE, image_layout: LAYOUT_DEPTH_READ_ONLY_STENCIL_ATTACHMENT_OPTIMAL },
            AccessType::ComputeShaderStorageWrite => AccessInfo { stage: STAGE_COMPUTE_SHADER, access: ACCESS_SHADER_STORAGE_WRITE, image_layout: LAYOUT_GENERAL },
            AccessType::AnyShaderStorageWrite => AccessInfo { stage: STAGE_ALL_COMMANDS, access: ACCESS_SHADER_STORAGE_WRITE, image_layout: LAYOUT_GENERAL },
            AccessType::TransferWrite => AccessInfo { stage: STAGE_COPY, access: ACCESS_TRANSFER_WRITE, image_layout: LAYOUT_TRANSFER_DST_OPTIMAL },
            AccessType::HostWrite => AccessInfo { stage: STAGE_HOST, access: ACCESS_HOST_WRITE, image_layout: LAYOUT_GENERAL },
            AccessType::RayTracingShaderSampledRead => AccessInfo { stage: STAGE_RAY_TRACING_SHADER, access: ACCESS_SHADER_SAMPLED_READ, image_layout: LAYOUT_SHADER_READ_ONLY_OPTIMAL },
            AccessType::RayTracingShaderStorageRead => AccessInfo { stage: STAGE_RAY_TRACING_SHADER, access: ACCESS_SHADER_STORAGE_READ, image_layout: LAYOUT_GENERAL },
            AccessType::RayTracingShaderColorInputAttachmentRead => AccessInfo { stage: STAGE_RAY_TRACING_SHADER, access: ACCESS_INPUT_ATTACHMENT_READ, image_layout: LAYOUT_SHADER_READ_ONLY_OPTIMAL },
            AccessType::RayTracingShaderDepthStencilInputAttachmentRead => AccessInfo { stage: STAGE_RAY_TRACING_SHADER, access: ACCESS_INPUT_ATTACHMENT_READ, image_layout: LAYOUT_DEPTH_STENCIL_READ_ONLY_OPTIMAL },
            AccessType::RayTracingShaderAccelerationStructureRead => AccessInfo { stage: STAGE_RAY_TRACING_SHADER, access: ACCESS_ACCELERATION_STRUCTURE_READ, image_layout: LAYOUT_UNDEFINED },
            AccessType::AccelerationStructureBuildWrite => AccessInfo { stage: STAGE_ACCELERATION_STRUCTURE_BUILD, access: ACCESS_ACCELERATION_STRUCTURE_WRITE, image_layout: LAYOUT_UNDEFINED },
            AccessType::AccelerationStructureBuildRead => AccessInfo { stage: STAGE_ACCELERATION_STRUCTURE_BUILD, access: ACCESS_ACCELERATION_STRUCTURE_READ, image_layout: LAYOUT_UNDEFINED },
            AccessType::AccelerationStructureBufferWrite => AccessInfo { stage: STAGE_ACCELERATION_STRUCTURE_BUILD, access: ACCESS_TRANSFER_WRITE, image_layout: LAYOUT_UNDEFINED },
            AccessType::General => AccessInfo { stage: STAGE_ALL_COMMANDS, access: ACCESS_MEMORY_READ_WRITE, image_layout: LAYOUT_GENERAL },
        }
    }

    /// The stages, access mask and optimal layout of this access.
    pub fn info(self) -> (r: AccessInfo)
        ensures
            r == self.spec_info(),
    {
        match self {
            AccessType::Nothing => AccessInfo { stage: STAGE_TOP_OF_PIPE, access: ACCESS_NONE, image_layout: LAYOUT_UNDEFINED },
            AccessType::IndirectBuffer => AccessInfo { stage: STAGE_DRAW_INDIRECT, access: ACCESS_INDIRECT_COMMAND_READ, image_layout: LAYOUT_UNDEFINED },
            AccessType::IndexBuffer => AccessInfo { stage: STAGE_INDEX_INPUT, access: ACCESS_INDEX_READ, image_layout: LAYOUT_UNDEFINED },
            AccessType::VertexBuffer => AccessInfo { stage: STAGE_VERTEX_INPUT, access: ACCESS_VERTEX_ATTRIBUTE_READ, image_layout: LAYOUT_UNDEFINED },
            AccessType::VertexShaderUniformRead => AccessInfo { stage: STAGE_VERTEX_SHADER, access: ACCESS_UNIFORM_READ, image_layout: LAYOUT_UNDEFINED },
            AccessType::VertexShaderSampledRead => AccessInfo { stage: STAGE_VERTEX_SHADER, access: ACCESS_SHADER_SAMPLED_READ, image_layout: LAYOUT_SHADER_READ_ONLY_OPTIMAL },
            AccessType::VertexShaderStorageRead => AccessInfo { stage: STAGE_VERTEX_SHADER, access: ACCESS_SHADER_STORAGE_READ, image_layout: LAYOUT_GENERAL },
            AccessType::TessellationControlShaderUniformRead => AccessInfo { stage: STAGE_TESSELLATION_CONTROL_SHADER, access: ACCESS_UNIFORM_READ, image_layout: LAYOUT_UNDEFINED },
            AccessType::TessellationControlShaderSampledRead => AccessInfo { stage: STAGE_TESSELLATION_CONTROL_SHADER, access: ACCESS_SHADER_SAMPLED_READ, image_layout: LAYOUT_SHADER_READ_ONLY_OPTIMAL },
            AccessType::TessellationControlShaderStorageRead => AccessInfo { stage: STAGE_TESSELLATION_CONTROL_SHADER, access: ACCESS_SHADER_STORAGE_READ, image_layout: LAYOUT_GENERAL },
            AccessType::TessellationEvaluationShaderUniformRead => AccessInfo { stage: STAGE_TESSELLATION_EVALUATION_SHADER, access: ACCESS_UNIFORM_READ, image_layout: LAYOUT_UNDEFINED },
            AccessType::TessellationEvaluationShaderSampledRead => AccessInfo { stage: STAGE_TESSELLATION_EVALUATION_SHADER, access: ACCESS_SHADER_SAMPLED_READ, image_layout: LAYOUT_SHADER_READ_ONLY_OPTIMAL },
            AccessType::TessellationEvaluationShaderStorageRead => AccessInfo { stage: STAGE_TESSELLATION_EVALUATION_SHADER, access: ACCESS_SHADER_STORAGE_READ, image_layout: LAYOUT_GENERAL },
            AccessType::GeometryShaderUniformRead => AccessInfo { stage: STAGE_GEOMETRY_SHADER, access: ACCESS_UNIFORM_READ, image_layout: LAYOUT_UNDEFINED },
            AccessType::GeometryShaderSampledRead => AccessInfo { stage: STAGE_GEOMETRY_SHADER, access: ACCESS_SHADER_SAMPLED_READ, image_layout: LAYOUT_SHADER_READ_ONLY_OPTIMAL },
            AccessType::GeometryShaderStorageRead => AccessInfo { stage: STAGE_GEOMETRY_SHADER, access: ACCESS_SHADER_STORAGE_READ, image_layout: LAYOUT_GENERAL },
            AccessType::FragmentShaderUniformRead => AccessInfo { stage: STAGE_FRAGMENT_SHADER, access: ACCESS_UNIFORM_READ, image_layout: LAYOUT_UNDEFINED },
            AccessType::FragmentShaderSampledRead => AccessInfo { stage: STAGE_FRAGMENT_SHADER, access: ACCESS_SHADER_SAMPLED_READ, image_layout: LAYOUT_SHADER_READ_ONLY_OPTIMAL },
            AccessType::FragmentShaderColorInputAttachmentRead => AccessInfo { stage: STAGE_FRAGMENT_SHADER, access: ACCESS_INPUT_ATTACHMENT_READ, image_layout: LAYOUT_SHADER_READ_ONLY_OPTIMAL },
            AccessType::FragmentShaderDepthStencilInputAttachmentRead => AccessInfo { stage: STAGE_FRAGMENT_SHADER, access: ACCESS_INPUT_ATTACHMENT_READ, image_layout: LAYOUT_DEPTH_STENCIL_READ_ONLY_OPTIMAL },
            AccessType::FragmentShaderStorageRead => AccessInfo { stage: STAGE_FRAGMENT_SHADER, access: ACCESS_SHADER_STORAGE_READ, image_layout: LAYOUT_GENERAL },
            AccessType::ColorAttachmentRead => AccessInfo { stage: STAGE_COLOR_ATTACHMENT_OUTPUT, access: ACCESS_COLOR_ATTACHMENT_READ, image_layout: LAYOUT_COLOR_ATTACHMENT_OPTIMAL },
            AccessType::DepthStencilAttachmentRead => AccessInfo { stage: STAGE_FRAGMENT_TESTS, access: ACCESS_DEPTH_STENCIL_ATTACHMENT_READ, image_layout: LAYOUT_DEPTH_STENCIL_READ_ONLY_OPTIMAL },
            AccessType::ComputeShaderUniformRead => AccessInfo { stage: STAGE_COMPUTE_SHADER, access: ACCESS_UNIFORM_READ, image_layout: LAYOUT_UNDEFINED },
            AccessType::ComputeShaderSampledRead => AccessInfo { stage: STAGE_COMPUTE_SHADER, access: ACCESS_SHADER_SAMPLED_READ, image_layout: LAYOUT_SHADER_READ_ONLY_OPTIMAL },
            AccessType::ComputeShaderStorageRead => AccessInfo { stage: STAGE_COMPUTE_SHADER, access: ACCESS_SHADER_STORAGE_READ, image_layout: LAYOUT_GENERAL },
            AccessType::AnyShaderUniformRead => AccessInfo { stage: STAGE_ALL_COMMANDS, access: ACCESS_UNIFORM_READ, image_layout: LAYOUT_UNDEFINED },
            AccessType::AnyShaderSampledRead => AccessInfo { stage: STAGE_ALL_COMMANDS, access: ACCESS_SHADER_SAMPLED_READ, image_layout: LAYOUT_SHADER_READ_ONLY_OPTIMAL },
            AccessType::AnyShaderStorageRead => AccessInfo { stage: STAGE_ALL_COMMANDS, access: ACCESS_SHADER_STORAGE_READ, image_layout: LAYOUT_GENERAL },
            AccessType::TransferRead => AccessInfo { stage: STAGE_COPY, access: ACCESS_TRANSFER_READ, image_layout: LAYOUT_TRANSFER_SRC_OPTIMAL },
            AccessType::HostRead => AccessInfo { stage: STAGE_HOST, access: ACCESS_HOST_READ, image_layout: LAYOUT_GENERAL },
            AccessType::Present => AccessInfo { stage: STAGE_BOTTOM_OF_PIPE, access: ACCESS_NONE, image_layout: LAYOUT_PRESENT_SRC },
            AccessType::VertexShaderStorageWrite => AccessInfo { stage: STAGE_VERTEX_SHADER, access: ACCESS_SHADER_STORAGE_WRITE, image_layout: LAYOUT_GENERAL },
            AccessType::TessellationControlShaderStorageWrite => AccessInfo { stage: STAGE_TESSELLATION_CONTROL_SHADER, access: ACCESS_SHADER_STORAGE_WRITE, image_layout: LAYOUT_GENERAL },
            AccessType::TessellationEvaluationShaderStorageWrite => AccessInfo { stage: STAGE_TESSELLATION_EVALUATION_SHADER, access: ACCESS_SHADER_STORAGE_WRITE, image_layout: LAYOUT_GENERAL },
            AccessType::GeometryShaderStorageWrite => AccessInfo { stage: STAGE_GEOMETRY_SHADER, access: ACCESS_SHADER_STORAGE_WRITE, image_layout: LAYOUT_GENERAL },
            AccessType::FragmentShaderStorageWrite => AccessInfo { stage: STAGE_FRAGMENT_SHADER, access: ACCESS_SHADER_STORAGE_WRITE, image_layout: LAYOUT_GENERAL },
            AccessType::ColorAttachmentWrite => AccessInfo { stage: STAGE_COLOR_ATTACHMENT_OUTPUT, access: ACCESS_COLOR_ATTACHMENT_WRITE, image_layout: LAYOUT_COLOR_ATTACHMENT_OPTIMAL },
            AccessType::ColorAttachmentReadWrite => AccessInfo { stage: STAGE_COLOR_ATTACHMENT_OUTPUT, access: ACCESS_COLOR_ATTACHMENT_READ_WRITE, image_layout: LAYOUT_COLOR_ATTACHMENT_OPTIMAL },
            AccessType::DepthStencilAttachmentWrite => AccessInfo { stage: STAGE_FRAGMENT_TESTS, access: ACCESS_DEPTH_STENCIL_ATTACHMENT_WRITE, image_layout: LAYOUT_DEPTH_STENCIL_ATTACHMENT_OPTIMAL },
            AccessType::DepthAttachmentWriteStencilReadOnly => AccessInfo { stage: STAGE_FRAGMENT_TESTS, access: ACCESS_DEPTH_STENCIL_ATTACHMENT_READ_WRITE, image_layout: LAYOUT_DEPTH_ATTACHMENT_STENCIL_READ_ONLY_OPTIMAL },
            AccessType::StencilAttachmentWriteDepthReadOnly => AccessInfo { stage: STAGE_FRAGMENT_TESTS, access: ACCESS_DEPTH_STENCIL_ATTACHMENT_READ_WRITE, image_layout: LAYOUT_DEPTH_READ_ONLY_STENCIL_ATTACHMENT_OPTIMAL },
            AccessType::ComputeShaderStorageWrite => AccessInfo { stage: STAGE_COMPUTE_SHADER, access: ACCESS_SHADER_STORAGE_WRITE, image_layout: LAYOUT_GENERAL },
            AccessType::AnyShaderStorageWrite => AccessInfo { stage: STAGE_ALL_COMMANDS, access: ACCESS_SHADER_STORAGE_WRITE, image_layout: LAYOUT_GENERAL },
            AccessType::TransferWrite => AccessInfo { stage: STAGE_COPY, access: ACCESS_TRANSFER_WRITE, image_layout: LAYOUT_TRANSFER_DST_OPTIMAL },
            AccessType::HostWrite => AccessInfo { stage: STAGE_HOST, access: ACCESS_HOST_WRITE, image_layout: LAYOUT_GENERAL },
            AccessType::RayTracingShaderSampledRead => AccessInfo { stage: STAGE_RAY_TRACING_SHADER, access: ACCESS_SHADER_SAMPLED_READ, image_layout: LAYOUT_SHADER_READ_ONLY_OPTIMAL },
            AccessType::RayTracingShaderStorageRead => AccessInfo { stage: STAGE_RAY_TRACING_SHADER, access: ACCESS_SHADER_STORAGE_READ, image_layout: LAYOUT_GENERAL },
            AccessType::RayTracingShaderColorInputAttachmentRead => AccessInfo { stage: STAGE_RAY_TRACING_SHADER, access: ACCESS_INPUT_ATTACHMENT_READ, image_layout: LAYOUT_SHADER_READ_ONLY_OPTIMAL },
            AccessType::RayTracingShaderDepthStencilInputAttachmentRead => AccessInfo { stage: STAGE_RAY_TRACING_SHADER, access: ACCESS_INPUT_ATTACHMENT_READ, image_layout: LAYOUT_DEPTH_STENCIL_READ_ONLY_OPTIMAL },
            AccessType::RayTracingShaderAccelerationStructureRead => AccessInfo { stage: STAGE_RAY_TRACING_SHADER, access: ACCESS_ACCELERATION_STRUCTURE_READ, image_layout: LAYOUT_UNDEFINED },
            AccessType::AccelerationStructureBuildWrite => AccessInfo { stage: STAGE_ACCELERATION_STRUCTURE_BUILD, access: ACCESS_ACCELERATION_STRUCTURE_WRITE, image_layout: LAYOUT_UNDEFINED },
            AccessType::AccelerationStructureBuildRead => AccessInfo { stage: STAGE_ACCELERATION_STRUCTURE_BUILD, access: ACCESS_ACCELERATION_STRUCTURE_READ, image_layout: LAYOUT_UNDEFINED },
            AccessType::AccelerationStructureBufferWrite => AccessInfo { stage: STAGE_ACCELERATION_STRUCTURE_BUILD, access: ACCESS_TRANSFER_WRITE, image_layout: LAYOUT_UNDEFINED },
            AccessType::General => AccessInfo { stage: STAGE_ALL_COMMANDS, access: ACCESS_MEMORY_READ_WRITE, image_layout: LAYOUT_GENERAL },
        }
    }

    /// Whether this access writes.
    pub open spec fn spec_is_write(self) -> bool {
        match self {
            AccessType::VertexShaderStorageWrite
            | AccessType::TessellationControlShaderStorageWrite
            | AccessType::TessellationEvaluationShaderStorageWrite
            | AccessType::GeometryShaderStorageWrite
            | AccessType::FragmentShaderStorageWrite
            | AccessType::ColorAttachmentWrite
            | AccessType::ColorAttachmentReadWrite
            | AccessType::DepthStencilAttachmentWrite
            | AccessType::DepthAttachmentWriteStencilReadOnly
            | AccessType::StencilAttachmentWriteDepthReadOnly
            | AccessType::ComputeShaderStorageWrite
            | AccessType::AnyShaderStorageWrite
            | AccessType::TransferWrite
            | AccessType::HostWrite
            | AccessType::AccelerationStructureBuildWrite
            | AccessType::AccelerationStructureBufferWrite
            | AccessType::General => true,
            _ => false,
        }
    }

    /// Whether this access writes.
    pub fn is_write(self) -> (r: bool)
        ensures
            r == self.spec_is_write(),
    {
        match self {
            AccessType::VertexShaderStorageWrite
            | AccessType::TessellationControlShaderStorageWrite
            | AccessType::TessellationEvaluationShaderStorageWrite
            | AccessType::GeometryShaderStorageWrite
            | AccessType::FragmentShaderStorageWrite
            | AccessType::ColorAttachmentWrite
            | AccessType::ColorAttachmentReadWrite
            | AccessType::DepthStencilAttachmentWrite
            | AccessType::DepthAttachmentWriteStencilReadOnly
            | AccessType::StencilAttachmentWriteDepthReadOnly
            | AccessType::ComputeShaderStorageWrite
            | AccessType::AnyShaderStorageWrite
            | AccessType::TransferWrite
            | AccessType::HostWrite
            | AccessType::AccelerationStructureBuildWrite
            | AccessType::AccelerationStructureBufferWrite
            | AccessType::General => true,
            _ => false,
        }
    }
}

/// Simplified `VkImageLayout`.
#[derive(Debug, Copy, Clone, PartialEq, Eq, Structural)]
pub enum ImageLayout {
    /// Choose the most optimal layout for each usage. Performs layout transitions as appropriate for the access.
    Optimal,
    /// Layout accessible by all Vulkan access types on a device - no layout transitions except for presentation.
    General,
    /// Similar to `General`, but also allows presentation engines to access it.
    GeneralAndPresentation,
}

impl Default for ImageLayout {
    fn default() -> (r: Self)
        ensures
            r == ImageLayout::Optimal,
    {
        ImageLayout::Optimal
    }
}

impl ImageLayout {
    /// The Vulkan layout an access with optimal layout `optimal` gets under this choice.
    pub open spec fn spec_resolve(self, optimal: i32, is_present: bool) -> i32 {
        match self {
            ImageLayout::Optimal => optimal,
            ImageLayout::General => if is_present {
                LAYOUT_PRESENT_SRC
            } else {
                LAYOUT_GENERAL
            },
            ImageLayout::GeneralAndPresentation => LAYOUT_SHARED_PRESENT,
        }
    }

    /// The Vulkan layout an access gets under this choice; `info` is the
    /// access's table entry and `is_present` whether the access is presentation.
    pub fn resolve(self, info: &AccessInfo, is_present: bool) -> (r: i32)
        ensures
            r == self.spec_resolve(info.image_layout, is_present),
    {
        match self {
            ImageLayout::Optimal => info.image_layout,
            ImageLayout::General => {
                if is_present {
                    LAYOUT_PRESENT_SRC
                } else {
                    LAYOUT_GENERAL
                }
            },
            ImageLayout::GeneralAndPresentation => LAYOUT_SHARED_PRESENT,
        }
    }
}

/// Global memory barrier, for no specific resource.
/// Prefer this over image barriers when no layout transition is needed.
pub struct GlobalBarrier<'a> {
    pub previous_accesses: &'a [AccessType],
    pub next_accesses: &'a [AccessType],
}

/// Image barrier, only for layout transitions.
pub struct ImageBarrier<'a> {
    pub view: ImageView,
    pub previous_accesses: &'a [AccessType],
    pub next_accesses: &'a [AccessType],
    /// Override the layout derived from AccessType. Defaults to Optimal.
    pub previous_layout: ImageLayout,
    /// Override the layout derived from AccessType. Defaults to Optimal.
    pub next_layout: ImageLayout,
    /// Discard previous contents, the driver skips the layout blit.
    /// Use on first use or when every texel will be overwritten.
    pub discard_contents: bool,
}

impl<'a> Default for ImageBarrier<'a> {
    /// A barrier on the null view with no access on either side, optimal layouts, contents kept.
    fn default() -> (r: Self)
        ensures
            r.view == ImageView::default_spec(),
            r.previous_accesses@.len() == 0,
            r.next_accesses@.len() == 0,
            r.previous_layout == ImageLayout::Optimal,
            r.next_layout == ImageLayout::Optimal,
            !r.discard_contents,
    {
        let no_accesses: &'a [AccessType] = &[];
        ImageBarrier {
            view: ImageView::default(),
            previous_accesses: no_accesses,
            next_accesses: no_accesses,
            previous_layout: ImageLayout::Optimal,
            next_layout: ImageLayout::Optimal,
            discard_contents: false,
        }
    }
}

/// The four synchronization-2 masks of a memory dependency.
#[derive(Debug, Copy, Clone, PartialEq, Eq, Structural)]
pub struct BarrierMasks {
    pub src_stage: u64,
    pub dst_stage: u64,
    pub src_access: u64,
    pub dst_access: u64,
}

/// The masks and layouts of an image memory barrier.
#[derive(Debug, Copy, Clone, PartialEq, Eq, Structural)]
pub struct ImageTransition {
    pub masks: BarrierMasks,
    pub old_layout: i32,
    pub new_layout: i32,
}

/// The union of the stages of all accesses in `s`.
pub open spec fn stages_of(s: Seq<AccessType>) -> u64
    decreases s.len(),
{
    if s.len() == 0 {
        0
    } else {
        stages_of(s.drop_last()) | s.last().spec_info().stage
    }
}

/// The union of the access masks of all accesses in `s`.
pub open spec fn accesses_of(s: Seq<AccessType>) -> u64
    decreases s.len(),
{
    if s.len() == 0 {
        0
    } else {
        accesses_of(s.drop_last()) | s.last().spec_info().access
    }
}

/// The union of the access masks of the writing accesses in `s`.
pub open spec fn write_accesses_of(s: Seq<AccessType>) -> u64
    decreases s.len(),
{
    if s.len() == 0 {
        0
    } else if s.last().spec_is_write() {
        write_accesses_of(s.drop_last()) | s.last().spec_info().access
    } else {
        write_accesses_of(s.drop_last())
    }
}

/// Whether some access in `s` writes.
pub open spec fn has_write(s: Seq<AccessType>) -> bool {
    exists|i: int| 0 <= i < s.len() && #[trigger] s[i].spec_is_write()
}

/// The masks of a dependency from the accesses `previous` to the accesses `next`:
/// the source waits on the writes of `previous` only; when nothing was written
/// there is nothing to make visible, so the destination access mask is empty
/// too. An empty stage mask becomes top-of-pipe (source) or bottom-of-pipe
/// (destination).
pub open spec fn spec_fold_accesses(previous: Seq<AccessType>, next: Seq<AccessType>) -> BarrierMasks {
    let src_stage = stages_of(previous);
    let dst_stage = stages_of(next);
    let src_access = write_accesses_of(previous);
    BarrierMasks {
        src_stage: if src_stage == 0 {
            STAGE_TOP_OF_PIPE
        } else {
            src_stage
        },
        dst_stage: if dst_stage == 0 {
            STAGE_BOTTOM_OF_PIPE
        } else {
            dst_stage
        },
        src_access,
        dst_access: if src_access == 0 {
            0
        } else {
            accesses_of(next)
        },
    }
}

/// The layout of the last access of `s` under `layout`; undefined when `s` is empty.
pub open spec fn last_layout(s: Seq<AccessType>, layout: ImageLayout) -> i32 {
    if s.len() == 0 {
        LAYOUT_UNDEFINED
    } else {
        layout.spec_resolve(s.last().spec_info().image_layout, s.last() == AccessType::Present)
    }
}

/// The image barrier for the given accesses and layout choices: the masks of
/// the memory dependency, the old layout of the last previous access (undefined
/// when the contents are discarded) and the new layout of the last next access.
pub open spec fn spec_image_transition(
    previous: Seq<AccessType>,
    next: Seq<AccessType>,
    previous_layout: ImageLayout,
    next_layout: ImageLayout,
    discard_contents: bool,
) -> ImageTransition {
    ImageTransition {
        masks: spec_fold_accesses(previous, next),
        old_layout: if discard_contents {
            LAYOUT_UNDEFINED
        } else {
            last_layout(previous, previous_layout)
        },
        new_layout: last_layout(next, next_layout),
    }
}

proof fn lemma_take_step(s: Seq<AccessType>, i: int)
    requires
        0 <= i < s.len(),
    ensures
        s.take(i + 1).drop_last() == s.take(i),
        s.take(i + 1).last() == s[i],
        s.take(i + 1).len() == i + 1,
{
    assert(s.take(i + 1).drop_last() =~= s.take(i));
}

/// Folds the previous accesses: their stage union and the access union of their writes.
fn fold_previous(previous: &[AccessType]) -> (r: (u64, u64))
    ensures
        r.0 == stages_of(previous@),
        r.1 == write_accesses_of(previous@),
{
    let mut src_stage: u64 = 0;
    let mut src_access: u64 = 0;
    let len = previous.len();
    let mut i: usize = 0;
    while i < len
        invariant
            len == previous@.len(),
            i <= len,
            src_stage == stages_of(previous@.take(i as int)),
            src_access == write_accesses_of(previous@.take(i as int)),
        decreases len - i,
    {
        let prev = previous[i];
        proof {
            lemma_take_step(previous@, i as int);
        }
        let info = prev.info();
        src_stage = src_stage | info.stage;
        if prev.is_write() {
            src_access = src_access | info.access;
        }
        i = i + 1;
    }
    proof {
        assert(previous@.take(len as int) =~= previous@);
    }
    (src_stage, src_access)
}

/// Folds the next accesses: their stage union and, unless `src_access` is empty, their access union.
fn fold_next(next: &[AccessType], src_access: u64) -> (r: (u64, u64))
    ensures
        r.0 == stages_of(next@),
        r.1 == (if src_access == 0 {
            0
        } else {
            accesses_of(next@)
        }),
{
    let mut dst_stage: u64 = 0;
    let mut dst_access: u64 = 0;
    let len = next.len();
    let mut i: usize = 0;
    while i < len
        invariant
            len == next@.len(),
            i <= len,
            dst_stage == stages_of(next@.take(i as int)),
            dst_access == (if src_access == 0 {
                0
            } else {
                accesses_of(next@.take(i as int))
            }),
        decreases len - i,
    {
        let nxt = next[i];
        proof {
            lemma_take_step(next@, i as int);
        }
        let info = nxt.info();
        dst_stage = dst_stage | info.stage;
        // WAR: no availability operation means no visibility operation either
        if src_access != 0 {
            dst_access = dst_access | info.access;
        }
        i = i + 1;
    }
    proof {
        assert(next@.take(len as int) =~= next@);
    }
    (dst_stage, dst_access)
}

/// Folds previous/next access slices into the four synchronization-2 masks.
/// If the source access mask is empty (a pure execution dependency) the
/// destination access mask is emptied too: no visibility operation is needed.
pub fn fold_accesses(previous: &[AccessType], next: &[AccessType]) -> (r: BarrierMasks)
    ensures
        r == spec_fold_accesses(previous@, next@),
{
    let (mut src_stage, src_access) = fold_previous(previous);
    let (mut dst_stage, dst_access) = fold_next(next, src_access);
    if src_stage == 0 {
        src_stage = STAGE_TOP_OF_PIPE;
    }
    if dst_stage == 0 {
        dst_stage = STAGE_BOTTOM_OF_PIPE;
    }
    BarrierMasks { src_stage, dst_stage, src_access, dst_access }
}

/// The layout of the last access of `accesses` under `layout`; undefined when there is none.
fn last_access_layout(accesses: &[AccessType], layout: ImageLayout) -> (r: i32)
    ensures
        r == last_layout(accesses@, layout),
{
    let mut result: i32 = LAYOUT_UNDEFINED;
    let len = accesses.len();
    let mut i: usize = 0;
    while i < len
        invariant
            len == accesses@.len(),
            i <= len,
            result == last_layout(accesses@.take(i as int), layout),
        decreases len - i,
    {
        let access = accesses[i];
        proof {
            lemma_take_step(accesses@, i as int);
        }
        let info = access.info();
        result = layout.resolve(&info, access == AccessType::Present);
        i = i + 1;
    }
    proof {
        assert(accesses@.take(len as int) =~= accesses@);
    }
    result
}

/// The masks and layout transition of an image barrier. The caller adds the
/// image and the subresource range of the barrier's view.
pub fn build_image_barrier(barrier: &ImageBarrier) -> (r: ImageTransition)
    ensures
        r == spec_image_transition(
            barrier.previous_accesses@,
            barrier.next_accesses@,
            barrier.previous_layout,
            barrier.next_layout,
            barrier.discard_contents,
        ),
{
    let masks = fold_accesses(barrier.previous_accesses, barrier.next_accesses);
    let old_layout = if barrier.discard_contents {
        LAYOUT_UNDEFINED
    } else {
        last_access_layout(barrier.previous_accesses, barrier.previous_layout)
    };
    let new_layout = last_access_layout(barrier.next_accesses, barrier.next_layout);
    ImageTransition { masks, old_layout, new_layout }
}

proof fn lemma_or_nonzero(x: u64, y: u64)
    requires
        y != 0,
    ensures
        x | y != 0,
{
    assert(x | y != 0) by (bit_vector)
        requires
            y != 0,
    ;
}

/// Every writing access has a non-empty access mask.
proof fn lemma_write_access_nonzero(a: AccessType)
    requires
        a.spec_is_write(),
    ensures
        a.spec_info().access != 0,
{
}

proof fn lemma_no_write_accesses_empty(s: Seq<AccessType>)
    requires
        !has_write(s),
    ensures
        write_accesses_of(s) == 0,
    decreases s.len(),
{
    if s.len() > 0 {
        let rest = s.drop_last();
        assert(!has_write(rest)) by {
            if has_write(rest) {
                let i = choose|i: int| 0 <= i < rest.len() && #[trigger] rest[i].spec_is_write();
                assert(s[i] == rest[i]);
            }
        }
        assert(!s.last().spec_is_write()) by {
            assert(s[s.len() - 1] == s.last());
        }
        lemma_no_write_accesses_empty(rest);
    }
}

proof fn lemma_write_accesses_nonempty(s: Seq<AccessType>)
    requires
        has_write(s),
    ensures
        write_accesses_of(s) != 0,
    decreases s.len(),
{
    let i = choose|i: int| 0 <= i < s.len() && #[trigger] s[i].spec_is_write();
    let rest = s.drop_last();
    if s.last().spec_is_write() {
        lemma_write_access_nonzero(s.last());
        lemma_or_nonzero(write_accesses_of(rest), s.last().spec_info().access);
    } else {
        assert(i < s.len() - 1);
        assert(rest[i] == s[i]);
        assert(has_write(rest));
        lemma_write_accesses_nonempty(rest);
    }
}

/// A dependency whose previous accesses include no write is a pure execution
/// dependency: the source and the destination access masks are both empty.
pub proof fn law_no_previous_write_no_access_masks(previous: Seq<AccessType>, next: Seq<AccessType>)
    requires
        !has_write(previous),
    ensures
        spec_fold_accesses(previous, next).src_access == 0,
        spec_fold_accesses(previous, next).dst_access == 0,
{
    lemma_no_write_accesses_empty(previous);
}

/// When some previous access writes, the source access mask is not empty and
/// every next access is made visible.
pub proof fn law_previous_write_makes_next_visible(previous: Seq<AccessType>, next: Seq<AccessType>)
    requires
        has_write(previous),
    ensures
        spec_fold_accesses(previous, next).src_access != 0,
        spec_fold_accesses(previous, next).dst_access == accesses_of(next),
{
    lemma_write_accesses_nonempty(previous);
}

/// The stage masks of a dependency are never empty.
pub proof fn law_stage_masks_never_empty(previous: Seq<AccessType>, next: Seq<AccessType>)
    ensures
        spec_fold_accesses(previous, next).src_stage != 0,
        spec_fold_accesses(previous, next).dst_stage != 0,
{
}

/// An image barrier carries the same masks as a global barrier over the same accesses.
pub proof fn law_image_barrier_masks_match_global(
    previous: Seq<AccessType>,
    next: Seq<AccessType>,
    previous_layout: ImageLayout,
    next_layout: ImageLayout,
    discard_contents: bool,
)
    ensures
        spec_image_transition(previous, next, previous_layout, next_layout, discard_contents).masks
            == spec_fold_accesses(previous, next),
{
}

/// Discarding the contents always transitions from the undefined layout.
pub proof fn law_discard_transitions_from_undefined(
    previous: Seq<AccessType>,
    next: Seq<AccessType>,
    previous_layout: ImageLayout,
    next_layout: ImageLayout,
)
    ensures
        spec_image_transition(previous, next, previous_layout, next_layout, true).old_layout
            == LAYOUT_UNDEFINED,
{
}

/// Under the general layout choice an access uses the general layout, except
/// presentation, which uses the present layout.
pub proof fn law_general_layout_except_presentation(accesses: Seq<AccessType>)
    requires
        accesses.len() > 0,
    ensures
        last_layout(accesses, ImageLayout::General) == (if accesses.last() == AccessType::Present {
            LAYOUT_PRESENT_SRC
        } else {
            LAYOUT_GENERAL
        }),
{
}

/// Under the general-and-presentation layout choice every access uses the
/// shared present layout, so no transition happens even for presentation.
pub proof fn law_shared_layout_for_every_access(accesses: Seq<AccessType>)
    requires
        accesses.len() > 0,
    ensures
        last_layout(accesses, ImageLayout::GeneralAndPresentation) == LAYOUT_SHARED_PRESENT,
{
}

/// The access bits that write: shader storage, colour attachment,
/// depth/stencil attachment, transfer, host, memory and acceleration
/// structure writes.
pub open spec fn write_bits() -> u64 {
    ACCESS_SHADER_STORAGE_WRITE | ACCESS_COLOR_ATTACHMENT_WRITE | ACCESS_DEPTH_STENCIL_ATTACHMENT_WRITE
        | ACCESS_TRANSFER_WRITE | ACCESS_HOST_WRITE | ACCESS_MEMORY_WRITE
        | ACCESS_ACCELERATION_STRUCTURE_WRITE
}

/// Which of the access masks of the table hold a write bit.
proof fn lemma_table_masks_and_write_bits()
    ensures
        0x0u64 & 0x4_0041_5500u64 == 0,
        0x1u64 & 0x4_0041_5500u64 == 0,
        0x2u64 & 0x4_0041_5500u64 == 0,
        0x4u64 & 0x4_0041_5500u64 == 0,
        0x8u64 & 0x4_0041_5500u64 == 0,
        0x10u64 & 0x4_0041_5500u64 == 0,
        0x80u64 & 0x4_0041_5500u64 == 0,
        0x200u64 & 0x4_0041_5500u64 == 0,
        0x800u64 & 0x4_0041_5500u64 == 0,
        0x2000u64 & 0x4_0041_5500u64 == 0,
        0x20_0000u64 & 0x4_0041_5500u64 == 0,
        0x1_0000_0000u64 & 0x4_0041_5500u64 == 0,
        0x2_0000_0000u64 & 0x4_0041_5500u64 == 0,
        0x100u64 & 0x4_0041_5500u64 != 0,
        0x180u64 & 0x4_0041_5500u64 != 0,
        0x400u64 & 0x4_0041_5500u64 != 0,
        0x600u64 & 0x4_0041_5500u64 != 0,
        0x1000u64 & 0x4_0041_5500u64 != 0,
        0x4000u64 & 0x4_0041_5500u64 != 0,
        0x1_8000u64 & 0x4_0041_5500u64 != 0,
        0x40_0000u64 & 0x4_0041_5500u64 != 0,
        0x4_0000_0000u64 & 0x4_0041_5500u64 != 0,
        (0x4_0000_0000u64 | 0x100u64 | 0x400u64 | 0x1000u64 | 0x4000u64 | 0x1_0000u64 | 0x40_0000u64)
            == 0x4_0041_5500u64,
{
    assert({
        &&& 0x0u64 & 0x4_0041_5500u64 == 0
        &&& 0x1u64 & 0x4_0041_5500u64 == 0
        &&& 0x2u64 & 0x4_0041_5500u64 == 0
        &&& 0x4u64 & 0x4_0041_5500u64 == 0
        &&& 0x8u64 & 0x4_0041_5500u64 == 0
        &&& 0x10u64 & 0x4_0041_5500u64 == 0
        &&& 0x80u64 & 0x4_0041_5500u64 == 0
        &&& 0x200u64 & 0x4_0041_5500u64 == 0
        &&& 0x800u64 & 0x4_0041_5500u64 == 0
        &&& 0x2000u64 & 0x4_0041_5500u64 == 0
        &&& 0x20_0000u64 & 0x4_0041_5500u64 == 0
        &&& 0x1_0000_0000u64 & 0x4_0041_5500u64 == 0
        &&& 0x2_0000_0000u64 & 0x4_0041_5500u64 == 0
        &&& 0x100u64 & 0x4_0041_5500u64 != 0
        &&& 0x180u64 & 0x4_0041_5500u64 != 0
        &&& 0x400u64 & 0x4_0041_5500u64 != 0
        &&& 0x600u64 & 0x4_0041_5500u64 != 0
        &&& 0x1000u64 & 0x4_0041_5500u64 != 0
        &&& 0x4000u64 & 0x4_0041_5500u64 != 0
        &&& 0x1_8000u64 & 0x4_0041_5500u64 != 0
        &&& 0x40_0000u64 & 0x4_0041_5500u64 != 0
        &&& 0x4_0000_0000u64 & 0x4_0041_5500u64 != 0
        &&& (0x4_0000_0000u64 | 0x100u64 | 0x400u64 | 0x1000u64 | 0x4000u64 | 0x1_0000u64
            | 0x40_0000u64) == 0x4_0041_5500u64
    }) by (bit_vector);
}

/// The accesses that count as writes are exactly those whose access mask
/// holds a write bit.
pub proof fn law_writes_are_write_masks(a: AccessType)
    ensures
        a.spec_is_write() <==> a.spec_info().access & write_bits() != 0,
{
    lemma_table_masks_and_write_bits();
}

/// Which mask of an access a fold collects.
pub enum MaskKind {
    /// The access's stages.
    Stage,
    /// The access's access mask.
    Access,
    /// The access's access mask if it writes, else nothing.
    WriteAccess,
}

/// The mask of kind `kind` that `a` contributes to a fold.
pub open spec fn mask_of(a: AccessType, kind: MaskKind) -> u64 {
    match kind {
        MaskKind::Stage => a.spec_info().stage,
        MaskKind::Access => a.spec_info().access,
        MaskKind::WriteAccess => if a.spec_is_write() {
            a.spec_info().access
        } else {
            0
        },
    }
}

/// The union of the masks of kind `kind` of the accesses in `s`.
pub open spec fn or_fold(s: Seq<AccessType>, kind: MaskKind) -> u64
    decreases s.len(),
{
    if s.len() == 0 {
        0
    } else {
        or_fold(s.drop_last(), kind) | mask_of(s.last(), kind)
    }
}

proof fn lemma_or_bits(e: u64, a: u64, x: u64, v: u64)
    ensures
        e | a == a ==> e | (a | x) == a | x,
        x | (a | x) == a | x,
        a | v == v && x | v == v ==> (a | x) | v == v,
        0u64 | v == v,
        a | 0u64 == a,
        a | v == v && v | a == a ==> a == v,
{
    assert({
        &&& e | a == a ==> e | (a | x) == a | x
        &&& x | (a | x) == a | x
        &&& a | v == v && x | v == v ==> (a | x) | v == v
        &&& 0u64 | v == v
        &&& a | 0u64 == a
        &&& a | v == v && v | a == a ==> a == v
    }) by (bit_vector);
}

/// Every access's mask is within the fold.
proof fn lemma_or_fold_covers(s: Seq<AccessType>, kind: MaskKind)
    ensures
        forall|i: int| 0 <= i < s.len() ==> #[trigger] mask_of(s[i], kind) | or_fold(s, kind) == or_fold(s, kind),
    decreases s.len(),
{
    if s.len() > 0 {
        let rest = s.drop_last();
        lemma_or_fold_covers(rest, kind);
        let x = mask_of(s.last(), kind);
        assert forall|i: int| 0 <= i < s.len() implies #[trigger] mask_of(s[i], kind) | or_fold(s, kind)
            == or_fold(s, kind) by {
            let e = mask_of(s[i], kind);
            lemma_or_bits(e, or_fold(rest, kind), x, 0);
            if i < s.len() - 1 {
                assert(s[i] == rest[i]);
            }
        }
    }
}

/// The fold is within every mask that holds each access's mask.
proof fn lemma_or_fold_least(s: Seq<AccessType>, kind: MaskKind, v: u64)
    requires
        forall|i: int| 0 <= i < s.len() ==> #[trigger] mask_of(s[i], kind) | v == v,
    ensures
        or_fold(s, kind) | v == v,
    decreases s.len(),
{
    if s.len() == 0 {
        lemma_or_bits(0, 0, 0, v);
    } else {
        let rest = s.drop_last();
        assert forall|i: int| 0 <= i < rest.len() implies #[trigger] mask_of(rest[i], kind) | v == v by {
            assert(rest[i] == s[i]);
        }
        lemma_or_fold_least(rest, kind, v);
        assert(mask_of(s[s.len() - 1], kind) | v == v);
        lemma_or_bits(0, or_fold(rest, kind), mask_of(s.last(), kind), v);
    }
}

/// Folds over sequences with the same accesses, in any order and number, agree.
proof fn lemma_or_fold_same_accesses(s1: Seq<AccessType>, s2: Seq<AccessType>, kind: MaskKind)
    requires
        s1.to_set() == s2.to_set(),
    ensures
        or_fold(s1, kind) == or_fold(s2, kind),
{
    lemma_or_fold_covers(s1, kind);
    lemma_or_fold_covers(s2, kind);
    assert forall|i: int| 0 <= i < s1.len() implies #[trigger] mask_of(s1[i], kind) | or_fold(s2, kind)
        == or_fold(s2, kind) by {
        assert(s1.to_set().contains(s1[i]));
        assert(s2.to_set().contains(s1[i]));
        let j = choose|j: int| 0 <= j < s2.len() && s2[j] == s1[i];
        assert(mask_of(s2[j], kind) | or_fold(s2, kind) == or_fold(s2, kind));
    }
    assert forall|i: int| 0 <= i < s2.len() implies #[trigger] mask_of(s2[i], kind) | or_fold(s1, kind)
        == or_fold(s1, kind) by {
        assert(s2.to_set().contains(s2[i]));
        assert(s1.to_set().contains(s2[i]));
        let j = choose|j: int| 0 <= j < s1.len() && s1[j] == s2[i];
        assert(mask_of(s1[j], kind) | or_fold(s1, kind) == or_fold(s1, kind));
    }
    lemma_or_fold_least(s1, kind, or_fold(s2, kind));
    lemma_or_fold_least(s2, kind, or_fold(s1, kind));
    lemma_or_bits(0, or_fold(s1, kind), 0, or_fold(s2, kind));
}

/// The three folds of a barrier are folds of masks.
proof fn lemma_folds_are_or_folds(s: Seq<AccessType>)
    ensures
        stages_of(s) == or_fold(s, MaskKind::Stage),
        accesses_of(s) == or_fold(s, MaskKind::Access),
        write_accesses_of(s) == or_fold(s, MaskKind::WriteAccess),
    decreases s.len(),
{
    if s.len() > 0 {
        lemma_folds_are_or_folds(s.drop_last());
        lemma_or_bits(0, write_accesses_of(s.drop_last()), 0, 0);
    }
}

/// The masks of a dependency depend only on which access types occur before
/// and after it, not on their order or on repetitions.
pub proof fn law_masks_depend_only_on_which_accesses(
    previous: Seq<AccessType>,
    next: Seq<AccessType>,
    previous2: Seq<AccessType>,
    next2: Seq<AccessType>,
)
    requires
        previous.to_set() == previous2.to_set(),
        next.to_set() == next2.to_set(),
    ensures
        spec_fold_accesses(previous, next) == spec_fold_accesses(previous2, next2),
{
    lemma_folds_are_or_folds(previous);
    lemma_folds_are_or_folds(previous2);
    lemma_folds_are_or_folds(next);
    lemma_folds_are_or_folds(next2);
    lemma_or_fold_same_accesses(previous, previous2, MaskKind::Stage);
    lemma_or_fold_same_accesses(previous, previous2, MaskKind::WriteAccess);
    lemma_or_fold_same_accesses(next, next2, MaskKind::Stage);
    lemma_or_fold_same_accesses(next, next2, MaskKind::Access);
}

/// The shader stage whose accesses an access type names (vertex, tessellation
/// control, tessellation evaluation, geometry, fragment, compute or ray
/// tracing shader), as a pipeline stage bit; `None` for accesses of no single
/// shader stage.
pub open spec fn shader_stage_of(a: AccessType) -> Option<u64> {
    match a {
        AccessType::VertexShaderUniformRead
        | AccessType::VertexShaderSampledRead
        | AccessType::VertexShaderStorageRead
        | AccessType::VertexShaderStorageWrite => Some(STAGE_VERTEX_SHADER),
        AccessType::TessellationControlShaderUniformRead
        | AccessType::TessellationControlShaderSampledRead
        | AccessType::TessellationControlShaderStorageRead
        | AccessType::TessellationControlShaderStorageWrite => Some(STAGE_TESSELLATION_CONTROL_SHADER),
        AccessType::TessellationEvaluationShaderUniformRead
        | AccessType::TessellationEvaluationShaderSampledRead
        | AccessType::TessellationEvaluationShaderStorageRead
        | AccessType::TessellationEvaluationShaderStorageWrite => Some(STAGE_TESSELLATION_EVALUATION_SHADER),
        AccessType::GeometryShaderUniformRead
        | AccessType::GeometryShaderSampledRead
        | AccessType::GeometryShaderStorageRead
        | AccessType::GeometryShaderStorageWrite => Some(STAGE_GEOMETRY_SHADER),
        AccessType::FragmentShaderUniformRead
        | AccessType::FragmentShaderSampledRead
        | AccessType::FragmentShaderColorInputAttachmentRead
        | AccessType::FragmentShaderDepthStencilInputAttachmentRead
        | AccessType::FragmentShaderStorageRead
        | AccessType::FragmentShaderStorageWrite => Some(STAGE_FRAGMENT_SHADER),
        AccessType::ComputeShaderUniformRead
        | AccessType::ComputeShaderSampledRead
        | AccessType::ComputeShaderStorageRead
        | AccessType::ComputeShaderStorageWrite => Some(STAGE_COMPUTE_SHADER),
        AccessType::RayTracingShaderSampledRead
        | AccessType::RayTracingShaderStorageRead
        | AccessType::RayTracingShaderColorInputAttachmentRead
        | AccessType::RayTracingShaderDepthStencilInputAttachmentRead
        | AccessType::RayTracingShaderAccelerationStructureRead => Some(STAGE_RAY_TRACING_SHADER),
        _ => None,
    }
}

/// Every access made by one shader stage is synchronized at exactly that
/// stage: its pipeline stage mask is that stage's bit and nothing else.
pub proof fn law_shader_accesses_use_their_stage(a: AccessType)
    ensures
        shader_stage_of(a) is Some ==> a.spec_info().stage == shader_stage_of(a).unwrap(),
{
}

/// The stages of accesses that all carry the same stage mask are that mask.
proof fn lemma_stages_of_one_stage(s: Seq<AccessType>, stage: u64)
    requires
        s.len() > 0,
        forall|i: int| 0 <= i < s.len() ==> (#[trigger] s[i]).spec_info().stage == stage,
    ensures
        stages_of(s) == stage,
    decreases s.len(),
{
    let rest = s.drop_last();
    assert(s.last() == s[s.len() - 1]);
    assert(s.last().spec_info().stage == stage);
    assert(stages_of(s) == stages_of(rest) | stage);
    if rest.len() == 0 {
        assert(stages_of(rest) == 0);
        lemma_or_bits(0, 0, 0, stage);
    } else {
        assert forall|i: int| 0 <= i < rest.len() implies (#[trigger] rest[i]).spec_info().stage == stage by {
            assert(rest[i] == s[i]);
        }
        lemma_stages_of_one_stage(rest, stage);
        assert(stage | stage == stage) by (bit_vector);
    }
}

/// A dependency whose previous accesses are all made by one shader stage
/// waits on exactly that stage, and one whose next accesses are all made by
/// one shader stage blocks exactly that stage: a barrier between two compute
/// dispatches goes from the compute stage to the compute stage.
pub proof fn law_single_stage_dependency_uses_that_stage(
    previous: Seq<AccessType>,
    next: Seq<AccessType>,
    src: u64,
    dst: u64,
)
    ensures
        previous.len() > 0 && (forall|i: int| 0 <= i < previous.len() ==> shader_stage_of(#[trigger] previous[i]) == Some(src))
            ==> spec_fold_accesses(previous, next).src_stage == src,
        next.len() > 0 && (forall|i: int| 0 <= i < next.len() ==> shader_stage_of(#[trigger] next[i]) == Some(dst))
            ==> spec_fold_accesses(previous, next).dst_stage == dst,
{
    if previous.len() > 0 && (forall|i: int| 0 <= i < previous.len() ==> shader_stage_of(#[trigger] previous[i]) == Some(src)) {
        assert forall|i: int| 0 <= i < previous.len() implies (#[trigger] previous[i]).spec_info().stage == src by {
            law_shader_accesses_use_their_stage(previous[i]);
        }
        lemma_stages_of_one_stage(previous, src);
        assert(src != 0) by {
            law_shader_accesses_use_their_stage(previous[0]);
            assert(shader_stage_of(previous[0]) == Some(src));
        }
    }
    if next.len() > 0 && (forall|i: int| 0 <= i < next.len() ==> shader_stage_of(#[trigger] next[i]) == Some(dst)) {
        assert forall|i: int| 0 <= i < next.len() implies (#[trigger] next[i]).spec_info().stage == dst by {
            law_shader_accesses_use_their_stage(next[i]);
        }
        lemma_stages_of_one_stage(next, dst);
        assert(dst != 0) by {
            assert(shader_stage_of(next[0]) == Some(dst));
        }
    }
}

} // verus!
