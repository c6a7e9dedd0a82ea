//! Numeric values of the Vulkan enumerants and flag bits that the library's
//! tables hand to the driver (`VkPipelineStageFlagBits2`, `VkAccessFlagBits2`,
//! `VkImageLayout`).
use vstd::prelude::*;

verus! {

// VkPipelineStageFlagBits2
pub const STAGE_NONE: u64 = 0x0;
pub const STAGE_TOP_OF_PIPE: u64 = 0x1;
pub const STAGE_DRAW_INDIRECT: u64 = 0x2;
pub const STAGE_VERTEX_INPUT: u64 = 0x4;
pub const STAGE_VERTEX_SHADER: u64 = 0x8;
pub const STAGE_TESSELLATION_CONTROL_SHADER: u64 = 0x10;
pub const STAGE_TESSELLATION_EVALUATION_SHADER: u64 = 0x20;
pub const STAGE_GEOMETRY_SHADER: u64 = 0x40;
pub const STAGE_FRAGMENT_SHADER: u64 = 0x80;
pub const STAGE_EARLY_FRAGMENT_TESTS: u64 = 0x100;
pub const STAGE_LATE_FRAGMENT_TESTS: u64 = 0x200;
pub const STAGE_COLOR_ATTACHMENT_OUTPUT: u64 = 0x400;
pub const STAGE_COMPUTE_SHADER: u64 = 0x800;
pub const STAGE_ALL_TRANSFER: u64 = 0x1000;
pub const STAGE_BOTTOM_OF_PIPE: u64 = 0x2000;
pub const STAGE_HOST: u64 = 0x4000;
pub const STAGE_ALL_GRAPHICS: u64 = 0x8000;
pub const STAGE_ALL_COMMANDS: u64 = 0x1_0000;
pub const STAGE_RAY_TRACING_SHADER: u64 = 0x20_0000;
pub const STAGE_ACCELERATION_STRUCTURE_BUILD: u64 = 0x200_0000;
pub const STAGE_ACCELERATION_STRUCTURE_COPY: u64 = 0x1000_0000;
pub const STAGE_COPY: u64 = 0x1_0000_0000;
pub const STAGE_RESOLVE: u64 = 0x2_0000_0000;
pub const STAGE_BLIT: u64 = 0x4_0000_0000;
pub const STAGE_CLEAR: u64 = 0x8_0000_0000;
pub const STAGE_INDEX_INPUT: u64 = 0x10_0000_0000;
/// Early and late fragment tests together.
pub const STAGE_FRAGMENT_TESTS: u64 = 0x300;

// VkAccessFlagBits2
pub const ACCESS_NONE: u64 = 0x0;
pub const ACCESS_INDIRECT_COMMAND_READ: u64 = 0x1;
pub const ACCESS_INDEX_READ: u64 = 0x2;
pub const ACCESS_VERTEX_ATTRIBUTE_READ: u64 = 0x4;
pub const ACCESS_UNIFORM_READ: u64 = 0x8;
pub const ACCESS_INPUT_ATTACHMENT_READ: u64 = 0x10;
pub const ACCESS_COLOR_ATTACHMENT_READ: u64 = 0x80;
pub const ACCESS_COLOR_ATTACHMENT_WRITE: u64 = 0x100;
pub const ACCESS_DEPTH_STENCIL_ATTACHMENT_READ: u64 = 0x200;
pub const ACCESS_DEPTH_STENCIL_ATTACHMENT_WRITE: u64 = 0x400;
pub const ACCESS_TRANSFER_READ: u64 = 0x800;
pub const ACCESS_TRANSFER_WRITE: u64 = 0x1000;
pub const ACCESS_HOST_READ: u64 = 0x2000;
pub const ACCESS_HOST_WRITE: u64 = 0x4000;
pub const ACCESS_MEMORY_READ: u64 = 0x8000;
pub const ACCESS_MEMORY_WRITE: u64 = 0x1_0000;
pub const ACCESS_ACCELERATION_STRUCTURE_READ: u64 = 0x20_0000;
pub const ACCESS_ACCELERATION_STRUCTURE_WRITE: u64 = 0x40_0000;
pub const ACCESS_SHADER_SAMPLED_READ: u64 = 0x1_0000_0000;
pub const ACCESS_SHADER_STORAGE_READ: u64 = 0x2_0000_0000;
pub const ACCESS_SHADER_STORAGE_WRITE: u64 = 0x4_0000_0000;
/// Colour attachment read and write together.
pub const ACCESS_COLOR_ATTACHMENT_READ_WRITE: u64 = 0x180;
/// Depth/stencil attachment read and write together.
pub const ACCESS_DEPTH_STENCIL_ATTACHMENT_READ_WRITE: u64 = 0x600;
/// Memory read and write together.
pub const ACCESS_MEMORY_READ_WRITE: u64 = 0x1_8000;

// VkImageLayout
pub const LAYOUT_UNDEFINED: i32 = 0;
pub const LAYOUT_GENERAL: i32 = 1;
pub const LAYOUT_COLOR_ATTACHMENT_OPTIMAL: i32 = 2;
pub const LAYOUT_DEPTH_STENCIL_ATTACHMENT_OPTIMAL: i32 = 3;
pub const LAYOUT_DEPTH_STENCIL_READ_ONLY_OPTIMAL: i32 = 4;
pub const LAYOUT_SHADER_READ_ONLY_OPTIMAL: i32 = 5;
pub const LAYOUT_TRANSFER_SRC_OPTIMAL: i32 = 6;
pub const LAYOUT_TRANSFER_DST_OPTIMAL: i32 = 7;
pub const LAYOUT_PRESENT_SRC: i32 = 1_000_001_002;
pub const LAYOUT_SHARED_PRESENT: i32 = 1_000_111_000;
pub const LAYOUT_DEPTH_READ_ONLY_STENCIL_ATTACHMENT_OPTIMAL: i32 = 1_000_117_000;
pub const LAYOUT_DEPTH_ATTACHMENT_STENCIL_READ_ONLY_OPTIMAL: i32 = 1_000_117_001;

// VK_QUEUE_FAMILY_IGNORED
pub const QUEUE_FAMILY_IGNORED: u32 = 0xffff_ffff;

} // verus!
