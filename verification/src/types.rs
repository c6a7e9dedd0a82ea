use vstd::prelude::*;
use vstd::std_specs::ops::BitOrSpecImpl;

use crate::commands::QueueType;

verus! {

/// Wrapper for `VkExtent3D`.
#[derive(Clone, Copy, Debug, PartialEq, Eq, Structural)]
pub struct Extent3D {
    pub width: u32,
    pub height: u32,
    pub depth: u32,
}

impl Default for Extent3D {
    fn default() -> (r: Self)
        ensures
            r == (Extent3D { width: 0, height: 0, depth: 0 }),
    {
        Extent3D { width: 0, height: 0, depth: 0 }
    }
}

/// Wrapper for `VkExtent2D`.
#[derive(Clone, Copy, Debug, PartialEq, Eq, Structural)]
pub struct Extent2D {
    pub width: u32,
    pub height: u32,
}

impl Default for Extent2D {
    fn default() -> (r: Self)
        ensures
            r == (Extent2D { width: 0, height: 0 }),
    {
        Extent2D { width: 0, height: 0 }
    }
}

/// Wrapper for `VkOffset3D`.
#[derive(Clone, Copy, Debug, PartialEq, Eq, Structural)]
pub struct Offset3D {
    pub x: i32,
    pub y: i32,
    pub z: i32,
}

impl Default for Offset3D {
    fn default() -> (r: Self)
        ensures
            r == (Offset3D { x: 0, y: 0, z: 0 }),
    {
        Offset3D { x: 0, y: 0, z: 0 }
    }
}

/// Wrapper for `VkOffset2D`.
#[derive(Clone, Copy, Debug, PartialEq, Eq, Structural)]
pub struct Offset2D {
    pub x: i32,
    pub y: i32,
}

impl Default for Offset2D {
    fn default() -> (r: Self)
        ensures
            r == (Offset2D { x: 0, y: 0 }),
    {
        Offset2D { x: 0, y: 0 }
    }
}

/// Memory types.
#[derive(Clone, Copy, Debug, PartialEq, Eq, Structural)]
pub enum MemoryType {
    /// Resides on the GPU, not accessible by the host.
    DeviceLocal,
    /// Resides on the host, accessible by the GPU.
    PreferHost,
    /// Resides on the GPU, accessible by the host.
    HostVisible,
    /// Let the driver choose.
    Auto,
}

impl MemoryType {
    /// Whether buffers of this memory type are mapped for the host when created.
    pub open spec fn spec_is_host_mapped(self) -> bool {
        self == MemoryType::HostVisible || self == MemoryType::PreferHost
    }

    /// Whether a buffer of this memory type gets a host mapping when it is created.
    pub fn is_host_mapped(&self) -> (r: bool)
        ensures
            r == self.spec_is_host_mapped(),
    {
        match self {
            MemoryType::HostVisible | MemoryType::PreferHost => true,
            _ => false,
        }
    }
}


/// Buffer usage flags (`VkBufferUsageFlags`).
/// Flags combine with `|`; `bits` holds the raw Vulkan bits.
#[derive(Clone, Copy, Debug, PartialEq, Eq, Hash, Structural)]
pub struct BufferUsage {
    pub bits: u32,
}

impl BufferUsage {
    /// The `STORAGE` flag.
    pub fn storage() -> (r: Self)
        ensures
            r.bits == 0x20,
    {
        BufferUsage { bits: 0x20 }
    }

    /// The `VERTEX` flag.
    pub fn vertex() -> (r: Self)
        ensures
            r.bits == 0x80,
    {
        BufferUsage { bits: 0x80 }
    }

    /// The `INDEX` flag.
    pub fn index() -> (r: Self)
        ensures
            r.bits == 0x40,
    {
        BufferUsage { bits: 0x40 }
    }

    /// The `UNIFORM` flag.
    pub fn uniform() -> (r: Self)
        ensures
            r.bits == 0x10,
    {
        BufferUsage { bits: 0x10 }
    }

    /// The `INDIRECT` flag.
    pub fn indirect() -> (r: Self)
        ensures
            r.bits == 0x100,
    {
        BufferUsage { bits: 0x100 }
    }

    /// The `TRANSFER_SRC` flag.
    pub fn transfer_src() -> (r: Self)
        ensures
            r.bits == 0x1,
    {
        BufferUsage { bits: 0x1 }
    }

    /// The `TRANSFER_DST` flag.
    pub fn transfer_dst() -> (r: Self)
        ensures
            r.bits == 0x2,
    {
        BufferUsage { bits: 0x2 }
    }

    /// The set with no flag.
    pub fn empty() -> (r: Self)
        ensures
            r.bits == 0,
    {
        BufferUsage { bits: 0 }
    }

    /// The flags with exactly these bits, known or not.
    pub fn from_bits_retain(bits: u32) -> (r: Self)
        ensures
            r.bits == bits,
    {
        BufferUsage { bits }
    }

    /// The raw bits.
    pub fn bits(&self) -> (r: u32)
        ensures
            r == self.bits,
    {
        self.bits
    }

    /// Whether no flag is set.
    pub fn is_empty(&self) -> (r: bool)
        ensures
            r == (self.bits == 0),
    {
        self.bits == 0
    }

    /// Whether every flag of `other` is set in `self`.
    pub fn contains(&self, other: Self) -> (r: bool)
        ensures
            r == (self.bits & other.bits == other.bits),
    {
        self.bits & other.bits == other.bits
    }
}

impl core::ops::BitOr for BufferUsage {
    type Output = BufferUsage;

    fn bitor(self, rhs: BufferUsage) -> (r: BufferUsage) {
        BufferUsage { bits: self.bits | rhs.bits }
    }
}

impl BitOrSpecImpl for BufferUsage {
    open spec fn obeys_bitor_spec() -> bool {
        true
    }

    open spec fn bitor_req(self, rhs: BufferUsage) -> bool {
        true
    }

    open spec fn bitor_spec(self, rhs: BufferUsage) -> BufferUsage {
        BufferUsage { bits: self.bits | rhs.bits }
    }
}


/// Buffer description; host mapping is made for the host-visible memory types.
#[derive(Clone, Copy, Debug, PartialEq, Eq, Structural)]
pub struct BufferDescription {
    pub usage: BufferUsage,
    pub size: u64,
    pub memory_type: MemoryType,
}

#[derive(Clone, Copy, Debug, PartialEq, Eq, Structural)]
pub enum ImageType {
    Type1D,
    Type2D,
    Type3D,
}

impl ImageType {
    /// The `VkImageType` value.
    pub fn vk_value(&self) -> (r: i32)
        ensures
            r == (match *self {
                ImageType::Type1D => 0i32,
                ImageType::Type2D => 1i32,
                ImageType::Type3D => 2i32,
            }),
    {
        match self {
            ImageType::Type1D => 0,
            ImageType::Type2D => 1,
            ImageType::Type3D => 2,
        }
    }
}

/// Image usage flags (`VkImageUsageFlags`).
/// Flags combine with `|`; `bits` holds the raw Vulkan bits.
#[derive(Clone, Copy, Debug, PartialEq, Eq, Hash, Structural)]
pub struct ImageUsage {
    pub bits: u32,
}

impl ImageUsage {
    /// The `TRANSFER_SRC` flag.
    pub fn transfer_src() -> (r: Self)
        ensures
            r.bits == 0x1,
    {
        ImageUsage { bits: 0x1 }
    }

    /// The `TRANSFER_DST` flag.
    pub fn transfer_dst() -> (r: Self)
        ensures
            r.bits == 0x2,
    {
        ImageUsage { bits: 0x2 }
    }

    /// The `SAMPLED` flag.
    pub fn sampled() -> (r: Self)
        ensures
            r.bits == 0x4,
    {
        ImageUsage { bits: 0x4 }
    }

    /// The `STORAGE` flag.
    pub fn storage() -> (r: Self)
        ensures
            r.bits == 0x8,
    {
        ImageUsage { bits: 0x8 }
    }

    /// The `COLOR_ATTACHMENT` flag.
    pub fn color_attachment() -> (r: Self)
        ensures
            r.bits == 0x10,
    {
        ImageUsage { bits: 0x10 }
    }

    /// The `DEPTH_STENCIL_ATTACHMENT` flag.
    pub fn depth_stencil_attachment() -> (r: Self)
        ensures
            r.bits == 0x20,
    {
        ImageUsage { bits: 0x20 }
    }

    /// The set with no flag.
    pub fn empty() -> (r: Self)
        ensures
            r.bits == 0,
    {
        ImageUsage { bits: 0 }
    }

    /// The flags with exactly these bits, known or not.
    pub fn from_bits_retain(bits: u32) -> (r: Self)
        ensures
            r.bits == bits,
    {
        ImageUsage { bits }
    }

    /// The raw bits.
    pub fn bits(&self) -> (r: u32)
        ensures
            r == self.bits,
    {
        self.bits
    }

    /// Whether no flag is set.
    pub fn is_empty(&self) -> (r: bool)
        ensures
            r == (self.bits == 0),
    {
        self.bits == 0
    }

    /// Whether every flag of `other` is set in `self`.
    pub fn contains(&self, other: Self) -> (r: bool)
        ensures
            r == (self.bits & other.bits == other.bits),
    {
        self.bits & other.bits == other.bits
    }
}

impl core::ops::BitOr for ImageUsage {
    type Output = ImageUsage;

    fn bitor(self, rhs: ImageUsage) -> (r: ImageUsage) {
        ImageUsage { bits: self.bits | rhs.bits }
    }
}

impl BitOrSpecImpl for ImageUsage {
    open spec fn obeys_bitor_spec() -> bool {
        true
    }

    open spec fn bitor_req(self, rhs: ImageUsage) -> bool {
        true
    }

    open spec fn bitor_spec(self, rhs: ImageUsage) -> ImageUsage {
        ImageUsage { bits: self.bits | rhs.bits }
    }
}

/// Image creation flags (`VkImageCreateFlags`).
/// Flags combine with `|`; `bits` holds the raw Vulkan bits.
#[derive(Clone, Copy, Debug, PartialEq, Eq, Hash, Structural)]
pub struct ImageCreateFlags {
    pub bits: u32,
}

impl ImageCreateFlags {
    /// The `NONE` flag.
    pub fn none() -> (r: Self)
        ensures
            r.bits == 0x0,
    {
        ImageCreateFlags { bits: 0x0 }
    }

    /// The `CUBE_COMPATIBLE` flag.
    pub fn cube_compatible() -> (r: Self)
        ensures
            r.bits == 0x10,
    {
        ImageCreateFlags { bits: 0x10 }
    }

    /// The `ARRAY_2D_COMPATIBLE` flag.
    pub fn array_2d_compatible() -> (r: Self)
        ensures
            r.bits == 0x20,
    {
        ImageCreateFlags { bits: 0x20 }
    }

    /// The `MUTABLE_FORMAT` flag.
    pub fn mutable_format() -> (r: Self)
        ensures
            r.bits == 0x8,
    {
        ImageCreateFlags { bits: 0x8 }
    }

    /// The `ALIAS` flag.
    pub fn alias() -> (r: Self)
        ensures
            r.bits == 0x400,
    {
        ImageCreateFlags { bits: 0x400 }
    }

    /// The `SPARSE_BINDING` flag.
    pub fn sparse_binding() -> (r: Self)
        ensures
            r.bits == 0x1,
    {
        ImageCreateFlags { bits: 0x1 }
    }

    /// The `SPARSE_RESIDENCY` flag.
    pub fn sparse_residency() -> (r: Self)
        ensures
            r.bits == 0x2,
    {
        ImageCreateFlags { bits: 0x2 }
    }

    /// The `SPARSE_ALIASED` flag.
    pub fn sparse_aliased() -> (r: Self)
        ensures
            r.bits == 0x4,
    {
        ImageCreateFlags { bits: 0x4 }
    }

    /// The `BLOCK_TEXEL_VIEW_COMPATIBLE` flag.
    pub fn block_texel_view_compatible() -> (r: Self)
        ensures
            r.bits == 0x80,
    {
        ImageCreateFlags { bits: 0x80 }
    }

    /// The `EXTENDED_USAGE` flag.
    pub fn extended_usage() -> (r: Self)
        ensures
            r.bits == 0x100,
    {
        ImageCreateFlags { bits: 0x100 }
    }

    /// The `PROTECTED` flag.
    pub fn protected() -> (r: Self)
        ensures
            r.bits == 0x800,
    {
        ImageCreateFlags { bits: 0x800 }
    }

    /// The `DISJOINT` flag.
    pub fn disjoint() -> (r: Self)
        ensures
            r.bits == 0x200,
    {
        ImageCreateFlags { bits: 0x200 }
    }

    /// The `CORNER_SAMPLED_NV` flag.
    pub fn corner_sampled_nv() -> (r: Self)
        ensures
            r.bits == 0x2000,
    {
        ImageCreateFlags { bits: 0x2000 }
    }

    /// The set with no flag.
    pub fn empty() -> (r: Self)
        ensures
            r.bits == 0,
    {
        ImageCreateFlags { bits: 0 }
    }

    /// The flags with exactly these bits, known or not.
    pub fn from_bits_retain(bits: u32) -> (r: Self)
        ensures
            r.bits == bits,
    {
        ImageCreateFlags { bits }
    }

    /// The raw bits.
    pub fn bits(&self) -> (r: u32)
        ensures
            r == self.bits,
    {
        self.bits
    }

    /// Whether no flag is set.
    pub fn is_empty(&self) -> (r: bool)
        ensures
            r == (self.bits == 0),
    {
        self.bits == 0
    }

    /// Whether every flag of `other` is set in `self`.
    pub fn contains(&self, other: Self) -> (r: bool)
        ensures
            r == (self.bits & other.bits == other.bits),
    {
        self.bits & other.bits == other.bits
    }
}

impl core::ops::BitOr for ImageCreateFlags {
    type Output = ImageCreateFlags;

    fn bitor(self, rhs: ImageCreateFlags) -> (r: ImageCreateFlags) {
        ImageCreateFlags { bits: self.bits | rhs.bits }
    }
}

impl BitOrSpecImpl for ImageCreateFlags {
    open spec fn obeys_bitor_spec() -> bool {
        true
    }

    open spec fn bitor_req(self, rhs: ImageCreateFlags) -> bool {
        true
    }

    open spec fn bitor_spec(self, rhs: ImageCreateFlags) -> ImageCreateFlags {
        ImageCreateFlags { bits: self.bits | rhs.bits }
    }
}


#[derive(Clone, Copy, Debug, PartialEq, Eq, Structural)]
pub enum Format {
    Rgba8Unorm,
    Bgra8Unorm,
    Rgb565Unorm,
    R32Uint,
    Rgba8Uint,
    Rgba32Sint,
    Rgba16Float,
    Rg32Float,
    Rgb32Float,
    Rgba32Float,
    R32Float,
    D32Float,
    D24UnormS8Uint,
    D16Unorm,
    BC1RgbaUnorm,
    BC7Unorm,
}


impl Format {
    /// The `VkFormat` value of this format.
    pub open spec fn spec_vk_format(self) -> i32 {
        match self {
            Format::Rgba8Unorm => 37,
            Format::Bgra8Unorm => 44,
            Format::Rgb565Unorm => 4,
            Format::R32Uint => 98,
            Format::Rgba8Uint => 41,
            Format::Rgba32Sint => 108,
            Format::Rgba16Float => 97,
            Format::Rg32Float => 103,
            Format::Rgb32Float => 106,
            Format::Rgba32Float => 109,
            Format::R32Float => 100,
            Format::D32Float => 126,
            Format::D24UnormS8Uint => 129,
            Format::D16Unorm => 124,
            Format::BC1RgbaUnorm => 133,
            Format::BC7Unorm => 145,
        }
    }

    /// The `VkFormat` value of this format.
    pub fn vk_format(&self) -> (r: i32)
        ensures
            r == self.spec_vk_format(),
    {
        match self {
            Format::Rgba8Unorm => 37,
            Format::Bgra8Unorm => 44,
            Format::Rgb565Unorm => 4,
            Format::R32Uint => 98,
            Format::Rgba8Uint => 41,
            Format::Rgba32Sint => 108,
            Format::Rgba16Float => 97,
            Format::Rg32Float => 103,
            Format::Rgb32Float => 106,
            Format::Rgba32Float => 109,
            Format::R32Float => 100,
            Format::D32Float => 126,
            Format::D24UnormS8Uint => 129,
            Format::D16Unorm => 124,
            Format::BC1RgbaUnorm => 133,
            Format::BC7Unorm => 145,
        }
    }
}

#[derive(Clone, Copy, Debug, PartialEq, Eq, Structural)]
pub enum SampleCount {
    Type1,
    Type2,
    Type4,
    Type8,
    Type16,
    Type32,
    Type64,
}

impl SampleCount {
    /// The `VkSampleCountFlagBits` value.
    pub fn vk_value(&self) -> (r: u32)
        ensures
            r == (match *self {
                SampleCount::Type1 => 1u32,
                SampleCount::Type2 => 2u32,
                SampleCount::Type4 => 4u32,
                SampleCount::Type8 => 8u32,
                SampleCount::Type16 => 16u32,
                SampleCount::Type32 => 32u32,
                SampleCount::Type64 => 64u32,
            }),
    {
        match self {
            SampleCount::Type1 => 1,
            SampleCount::Type2 => 2,
            SampleCount::Type4 => 4,
            SampleCount::Type8 => 8,
            SampleCount::Type16 => 16,
            SampleCount::Type32 => 32,
            SampleCount::Type64 => 64,
        }
    }
}

#[derive(Clone, Copy, Debug, PartialEq, Eq, Structural)]
pub enum ImageViewType {
    Type1D,
    Type2D,
    Type3D,
    Cube,
    Type1DArray,
    Type2DArray,
    CubeArray,
}

impl ImageViewType {
    /// The `VkImageViewType` value.
    pub fn vk_value(&self) -> (r: i32)
        ensures
            r == (match *self {
                ImageViewType::Type1D => 0i32,
                ImageViewType::Type2D => 1i32,
                ImageViewType::Type3D => 2i32,
                ImageViewType::Cube => 3i32,
                ImageViewType::Type1DArray => 4i32,
                ImageViewType::Type2DArray => 5i32,
                ImageViewType::CubeArray => 6i32,
            }),
    {
        match self {
            ImageViewType::Type1D => 0,
            ImageViewType::Type2D => 1,
            ImageViewType::Type3D => 2,
            ImageViewType::Cube => 3,
            ImageViewType::Type1DArray => 4,
            ImageViewType::Type2DArray => 5,
            ImageViewType::CubeArray => 6,
        }
    }
}

/// Image aspect flags (`VkImageAspectFlags`).
/// Flags combine with `|`; `bits` holds the raw Vulkan bits.
#[derive(Clone, Copy, Debug, PartialEq, Eq, Hash, Structural)]
pub struct ImageAspect {
    pub bits: u32,
}

impl ImageAspect {
    /// The `COLOR` flag.
    pub fn color() -> (r: Self)
        ensures
            r.bits == 0x1,
    {
        ImageAspect { bits: 0x1 }
    }

    /// The `DEPTH` flag.
    pub fn depth() -> (r: Self)
        ensures
            r.bits == 0x2,
    {
        ImageAspect { bits: 0x2 }
    }

    /// The `STENCIL` flag.
    pub fn stencil() -> (r: Self)
        ensures
            r.bits == 0x4,
    {
        ImageAspect { bits: 0x4 }
    }

    /// The set with no flag.
    pub fn empty() -> (r: Self)
        ensures
            r.bits == 0,
    {
        ImageAspect { bits: 0 }
    }

    /// The flags with exactly these bits, known or not.
    pub fn from_bits_retain(bits: u32) -> (r: Self)
        ensures
            r.bits == bits,
    {
        ImageAspect { bits }
    }

    /// The raw bits.
    pub fn bits(&self) -> (r: u32)
        ensures
            r == self.bits,
    {
        self.bits
    }

    /// Whether no flag is set.
    pub fn is_empty(&self) -> (r: bool)
        ensures
            r == (self.bits == 0),
    {
        self.bits == 0
    }

    /// Whether every flag of `other` is set in `self`.
    pub fn contains(&self, other: Self) -> (r: bool)
        ensures
            r == (self.bits & other.bits == other.bits),
    {
        self.bits & other.bits == other.bits
    }
}

impl core::ops::BitOr for ImageAspect {
    type Output = ImageAspect;

    fn bitor(self, rhs: ImageAspect) -> (r: ImageAspect) {
        ImageAspect { bits: self.bits | rhs.bits }
    }
}

impl BitOrSpecImpl for ImageAspect {
    open spec fn obeys_bitor_spec() -> bool {
        true
    }

    open spec fn bitor_req(self, rhs: ImageAspect) -> bool {
        true
    }

    open spec fn bitor_spec(self, rhs: ImageAspect) -> ImageAspect {
        ImageAspect { bits: self.bits | rhs.bits }
    }
}


/// A range of mip levels and array layers of one aspect of an image.
#[derive(Clone, Copy, Debug, PartialEq, Eq, Hash, Structural)]
pub struct ImageSubresources {
    pub aspect: ImageAspect,
    pub mip_level: u32,
    pub base_array_layer: u32,
    pub layer_count: u32,
    /// Only matters for a subresource range.
    pub level_count: u32,
}

impl Default for ImageSubresources {
    fn default() -> (r: Self)
        ensures
            r == (ImageSubresources {
                aspect: ImageAspect { bits: 0x1 },
                mip_level: 0,
                level_count: 1,
                base_array_layer: 0,
                layer_count: 1,
            }),
    {
        ImageSubresources {
            aspect: ImageAspect::color(),
            mip_level: 0,
            level_count: 1,
            base_array_layer: 0,
            layer_count: 1,
        }
    }
}

/// What an image view covers.
#[derive(Clone, Copy, Debug, PartialEq, Eq, Structural)]
pub struct ImageViewDescription {
    pub view_type: ImageViewType,
    pub subresources: ImageSubresources,
}

impl Default for ImageViewDescription {
    fn default() -> (r: Self)
        ensures
            r.view_type == ImageViewType::Type2D,
            r.subresources == (ImageSubresources {
                aspect: ImageAspect { bits: 0x1 },
                mip_level: 0,
                level_count: 1,
                base_array_layer: 0,
                layer_count: 1,
            }),
    {
        ImageViewDescription { view_type: ImageViewType::Type2D, subresources: ImageSubresources::default() }
    }
}

#[derive(Clone, Copy, Debug, PartialEq, Eq, Structural)]
pub struct ImageDescription {
    pub create_flags: ImageCreateFlags,
    pub usage: ImageUsage,
    pub format: Format,
    pub image_type: ImageType,
    pub extent: Extent3D,
    pub memory_type: MemoryType,
    pub mip_levels: u32,
    pub array_layers: u32,
    pub samples: SampleCount,
    pub default_view: ImageViewDescription,
}

impl Default for ImageDescription {
    fn default() -> (r: Self)
        ensures
            r.create_flags.bits == 0,
            r.usage.bits == 0x4,
            r.format == Format::Rgba16Float,
            r.image_type == ImageType::Type2D,
            r.extent == (Extent3D { width: 1, height: 1, depth: 1 }),
            r.memory_type == MemoryType::Auto,
            r.mip_levels == 1,
            r.array_layers == 1,
            r.samples == SampleCount::Type1,
            r.default_view.view_type == ImageViewType::Type2D,
            r.default_view.subresources == (ImageSubresources {
                aspect: ImageAspect { bits: 0x1 },
                mip_level: 0,
                level_count: 1,
                base_array_layer: 0,
                layer_count: 1,
            }),
    {
        ImageDescription {
            create_flags: ImageCreateFlags::none(),
            usage: ImageUsage::sampled(),
            format: Format::Rgba16Float,
            image_type: ImageType::Type2D,
            extent: Extent3D { width: 1, height: 1, depth: 1 },
            memory_type: MemoryType::Auto,
            mip_levels: 1,
            array_layers: 1,
            samples: SampleCount::Type1,
            default_view: ImageViewDescription::default(),
        }
    }
}

/// The slot-map key that a null resource handle carries (slot `u32::MAX`, version 1).
pub const NULL_RESOURCE_KEY: u64 = 0x1_ffff_ffff;

/// The index of a resource in its bindless descriptor array: the slot of its
/// registry key, which the low 32 bits of the key's 64-bit form hold.
pub fn descriptor_index_of_key(key: u64) -> (r: u32)
    ensures
        r == key % 0x1_0000_0000,
{
    (key % 0x1_0000_0000) as u32
}

/// A Vulkan buffer: the raw `VkBuffer` handle and the key of its entry in the
/// resource registry (a slot-map key in its 64-bit form).
#[derive(Clone, Copy, Debug, PartialEq, Eq, Structural)]
pub struct Buffer {
    pub raw: u64,
    pub id: u64,
}

impl Default for Buffer {
    fn default() -> (r: Self)
        ensures
            r.raw == 0,
            r.id == NULL_RESOURCE_KEY,
    {
        Buffer { raw: 0, id: NULL_RESOURCE_KEY }
    }
}

impl Buffer {
    /// The index of this buffer in the bindless buffer array: the slot of its
    /// registry key, which the low 32 bits of the key hold.
    pub fn descriptor_index(&self) -> (r: u32)
        ensures
            r == self.id % 0x1_0000_0000,
    {
        descriptor_index_of_key(self.id)
    }
}

/// A view of an image: the raw `VkImageView` handle and the key of its entry
/// in the view registry.
#[derive(Clone, Copy, Debug, PartialEq, Eq, Structural)]
pub struct ImageView {
    pub raw: u64,
    pub id: u64,
}

impl ImageView {
    /// The null view: no handle and the null key.
    pub open spec fn default_spec() -> ImageView {
        ImageView { raw: 0, id: NULL_RESOURCE_KEY }
    }
}

impl Default for ImageView {
    fn default() -> (r: Self)
        ensures
            r == ImageView::default_spec(),
    {
        ImageView { raw: 0, id: NULL_RESOURCE_KEY }
    }
}

/// A Vulkan image: the raw `VkImage` handle, its default view, and the key of
/// its entry in the resource registry.
#[derive(Clone, Copy, Debug, PartialEq, Eq, Structural)]
pub struct Image {
    pub raw: u64,
    pub default_view: ImageView,
    pub id: u64,
}

impl Default for Image {
    fn default() -> (r: Self)
        ensures
            r.raw == 0,
            r.default_view == (ImageView { raw: 0, id: NULL_RESOURCE_KEY }),
            r.id == NULL_RESOURCE_KEY,
    {
        Image { raw: 0, default_view: ImageView::default(), id: NULL_RESOURCE_KEY }
    }
}

impl Image {
    /// The view made together with the image.
    pub fn default_view(&self) -> (r: ImageView)
        ensures
            r == self.default_view,
    {
        self.default_view
    }
}

/// A region for buffer-to-image or image-to-buffer copy operations.
#[derive(Clone, Copy, Debug, PartialEq, Eq, Structural)]
pub struct BufferImageCopyRegion {
    pub buffer_offset: u64,
    pub buffer_row_length: u32,
    pub buffer_image_height: u32,
    pub image_subresource: ImageSubresources,
    pub image_offset: Offset3D,
    pub image_extent: Extent3D,
}

/// A region for image-to-image copy.
#[derive(Clone, Copy, Debug, PartialEq, Eq, Structural)]
pub struct ImageCopyRegion {
    pub src_subresource: ImageSubresources,
    pub src_offset: Offset3D,
    pub dst_subresource: ImageSubresources,
    pub dst_offset: Offset3D,
    pub extent: Extent3D,
}

/// A region for blit operations.
#[derive(Clone, Copy, Debug, PartialEq, Eq)]
pub struct BlitRegion {
    pub src_subresource: ImageSubresources,
    pub src_offsets: [Offset3D; 2],
    pub dst_subresource: ImageSubresources,
    pub dst_offsets: [Offset3D; 2],
}

#[derive(Clone, Copy, Debug, PartialEq, Eq, Structural)]
pub enum Filter {
    Nearest,
    Linear,
}

impl Filter {
    /// The `VkFilter` value.
    pub fn vk_value(&self) -> (r: i32)
        ensures
            r == (match *self {
                Filter::Nearest => 0i32,
                Filter::Linear => 1i32,
            }),
    {
        match self {
            Filter::Nearest => 0,
            Filter::Linear => 1,
        }
    }
}

/// Bits of a counter that hold the timeline value; the top byte holds the queue.
pub const COUNTER_VALUE_MASK: u64 = 0x00ff_ffff_ffff_ffff;

/// Used for sync. Every submit returns a counter, and other command buffers can
/// wait on one. It packs the queue into the top 8 bits and the timeline value
/// into the low 56 bits.
#[derive(Clone, Copy, Debug)]
pub struct Counter {
    data: u64,
}

/// What a counter stands for: a queue and a value on that queue's timeline.
pub open spec fn counter_value_of(value: u64) -> u64 {
    (value % 0x0100_0000_0000_0000) as u64
}

impl Counter {
    #[verifier::type_invariant]
    spec fn wf(self) -> bool {
        self.data >> 56u64 < 3
    }

    /// The queue this counter belongs to.
    pub closed spec fn queue(self) -> QueueType {
        QueueType::spec_from_index((self.data >> 56u64) as int).unwrap()
    }

    /// The timeline value this counter waits for.
    pub closed spec fn value(self) -> u64 {
        self.data & COUNTER_VALUE_MASK
    }

    /// The counter that packs `queue` and the low 56 bits of `value`.
    pub closed spec fn spec_encode(queue: QueueType, value: u64) -> Counter {
        Counter { data: ((queue.spec_index() as u64) << 56u64) | (value & COUNTER_VALUE_MASK) }
    }

    /// Packs a queue and a timeline value; only the low 56 bits of the value are kept.
    pub fn encode(queue: QueueType, value: u64) -> (r: Counter)
        ensures
            r == Counter::spec_encode(queue, value),
            r.queue() == queue,
            r.value() == counter_value_of(value),
    {
        let q: u64 = queue.index() as u64;
        let data: u64 = (q << 56u64) | (value & COUNTER_VALUE_MASK);
        proof {
            lemma_counter_bits(q, value);
        }
        Counter { data }
    }

    /// The queue and timeline value packed in this counter.
    pub fn decode(&self) -> (r: (QueueType, u64))
        ensures
            r.0 == self.queue(),
            r.1 == self.value(),
    {
        proof {
            use_type_invariant(self);
        }
        let queue_raw: u64 = self.data >> 56u64;
        let value: u64 = self.data & COUNTER_VALUE_MASK;
        let queue = QueueType::from_index(queue_raw as usize);
        (queue, value)
    }
}

/// Decoding gives back the queue and the timeline value a counter was
/// encoded from; values of 56 bits or fewer come back unchanged.
pub proof fn law_counter_roundtrip(queue: QueueType, value: u64)
    ensures
        Counter::spec_encode(queue, value).queue() == queue,
        Counter::spec_encode(queue, value).value() == counter_value_of(value),
        value <= COUNTER_VALUE_MASK ==> Counter::spec_encode(queue, value).value() == value,
{
    lemma_counter_bits(queue.spec_index() as u64, value);
}

proof fn lemma_counter_bits(q: u64, v: u64)
    requires
        q < 3,
    ensures
        ((q << 56u64) | (v & COUNTER_VALUE_MASK)) >> 56u64 == q,
        ((q << 56u64) | (v & COUNTER_VALUE_MASK)) & COUNTER_VALUE_MASK == v % 0x0100_0000_0000_0000,
{
    assert(((q << 56u64) | (v & 0x00ff_ffff_ffff_ffffu64)) >> 56u64 == q) by (bit_vector)
        requires
            q < 3,
    ;
    assert(((q << 56u64) | (v & 0x00ff_ffff_ffff_ffffu64)) & 0x00ff_ffff_ffff_ffffu64 == v
        % 0x0100_0000_0000_0000) by (bit_vector)
        requires
            q < 3,
    ;
}

} // verus!
