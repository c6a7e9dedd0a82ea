//! A small GPU abstraction over Vulkan: resources, command recording,
//! synchronization and presentation. This crate holds the library's
//! decisions; the calls into the driver sit on top of it.
pub mod api;
pub mod barrier;
pub mod commands;
pub mod device;
pub mod pipeline;
pub mod pools;
pub mod registry;
pub mod swapchain;
pub mod types;
pub mod vk_raw;

pub use api::SgpuInititizationInfo;
pub use barrier::{
    build_image_barrier, fold_accesses, AccessInfo, AccessType, BarrierMasks, GlobalBarrier,
    ImageBarrier, ImageLayout, ImageTransition,
};
pub use commands::{
    CommandBuffer, LoadOp, PipelineStage, QueueType, RenderArea, RenderingFlags, ResolveMode,
    SemaphoreWait, StoreOp, WaitTarget,
};
pub use pipeline::{
    BlendAttachmentState, BlendMode, CompareOp, ComputePipeline, CullMode, DepthStencilState,
    FrontFace, PipelineOutputs, PolygonMode, PrimitiveTopology, RasterizationPipelineDescription,
};
pub use pools::{poll, CommandPoolRing, PoolChoice, TimelineValues};
pub use swapchain::{AcquiredImage, SwapchainDescription};
pub use types::{
    BlitRegion, Buffer, BufferDescription, BufferImageCopyRegion, BufferUsage, Counter, Extent2D,
    Extent3D, Filter, Format, Image, ImageAspect, ImageCopyRegion, ImageCreateFlags,
    ImageDescription, ImageSubresources, ImageType, ImageUsage, ImageView, ImageViewDescription,
    ImageViewType, MemoryType, Offset2D, Offset3D, SampleCount,
};
