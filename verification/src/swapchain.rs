//! The swapchain's configuration choices and its per-frame bookkeeping.
use vstd::prelude::*;

use crate::types::{Extent2D, Format, Image};

verus! {

/// `VK_PRESENT_MODE_MAILBOX_KHR`.
pub const PRESENT_MODE_MAILBOX: i32 = 1;

/// `VK_PRESENT_MODE_FIFO_KHR`.
pub const PRESENT_MODE_FIFO: i32 = 2;

/// `VK_COLOR_SPACE_SRGB_NONLINEAR_KHR`.
pub const COLOR_SPACE_SRGB_NONLINEAR: i32 = 0;

#[derive(Clone, Copy, Debug, PartialEq, Eq, Structural)]
pub struct SwapchainDescription {
    pub format: Format,
    pub frames_in_flight: u32,
    pub width: u32,
    pub height: u32,
}

/// A swapchain image handed out for one frame: the image, its index in the
/// swapchain, the raw semaphores signalled when it is acquired and waited on
/// before it is presented, and the frame slot it was acquired in.
#[derive(Clone, Copy, Debug, PartialEq, Eq, Structural)]
pub struct AcquiredImage {
    pub image: Image,
    pub image_index: usize,
    pub acquire_semaphore: u64,
    pub present_semaphore: u64,
    pub slot: usize,
}

impl AcquiredImage {
    pub fn image(&self) -> (r: Image)
        ensures
            r == self.image,
    {
        self.image
    }
}

/// A surface format the surface supports: raw `VkFormat` and `VkColorSpaceKHR`.
#[derive(Clone, Copy, Debug, PartialEq, Eq, Structural)]
pub struct SurfaceFormat {
    pub format: i32,
    pub color_space: i32,
}

/// What the surface allows for a swapchain (from `VkSurfaceCapabilitiesKHR`).
#[derive(Clone, Copy, Debug, PartialEq, Eq, Structural)]
pub struct SurfaceCapabilities {
    pub min_image_count: u32,
    /// 0 means no upper limit.
    pub max_image_count: u32,
    /// A width of `u32::MAX` means the swapchain decides the extent.
    pub current_extent: Extent2D,
    pub min_image_extent: Extent2D,
    pub max_image_extent: Extent2D,
}

/// Mailbox when the surface offers it, else FIFO (which every surface offers).
pub fn choose_present_mode(available: &[i32]) -> (r: i32)
    ensures
        r == (if available@.contains(PRESENT_MODE_MAILBOX) {
            PRESENT_MODE_MAILBOX
        } else {
            PRESENT_MODE_FIFO
        }),
{
    let len = available.len();
    let mut i: usize = 0;
    while i < len
        invariant
            len == available@.len(),
            i <= len,
            forall|j: int| 0 <= j < i ==> available@[j] != PRESENT_MODE_MAILBOX,
        decreases len - i,
    {
        if available[i] == PRESENT_MODE_MAILBOX {
            return PRESENT_MODE_MAILBOX;
        }
        i = i + 1;
    }
    PRESENT_MODE_FIFO
}

/// Whether a surface format is the requested format in the sRGB non-linear colour space.
pub open spec fn is_requested_format(f: SurfaceFormat, format: Format) -> bool {
    f.format == format.spec_vk_format() && f.color_space == COLOR_SPACE_SRGB_NONLINEAR
}

/// The surface format the swapchain uses, by its index in `formats`, and
/// whether it is the requested one.
#[derive(Clone, Copy, Debug, PartialEq, Eq, Structural)]
pub struct SurfaceFormatChoice {
    pub index: usize,
    pub requested: bool,
}

/// The first supported format that is the requested format in the sRGB
/// non-linear colour space; failing that, the first supported format.
pub fn choose_surface_format(formats: &[SurfaceFormat], format: Format) -> (r: SurfaceFormatChoice)
    requires
        formats@.len() > 0,
    ensures
        r.index < formats@.len(),
        r.requested == exists|i: int| 0 <= i < formats@.len() && is_requested_format(#[trigger] formats@[i], format),
        r.requested ==> is_requested_format(formats@[r.index as int], format)
            && forall|j: int| 0 <= j < r.index ==> !is_requested_format(#[trigger] formats@[j], format),
        !r.requested ==> r.index == 0,
{
    let wanted = format.vk_format();
    let len = formats.len();
    let mut i: usize = 0;
    while i < len
        invariant
            len == formats@.len(),
            i <= len,
            wanted == format.spec_vk_format(),
            forall|j: int| 0 <= j < i ==> !is_requested_format(#[trigger] formats@[j], format),
        decreases len - i,
    {
        let f = formats[i];
        if f.format == wanted && f.color_space == COLOR_SPACE_SRGB_NONLINEAR {
            return SurfaceFormatChoice { index: i, requested: true };
        }
        i = i + 1;
    }
    SurfaceFormatChoice { index: 0, requested: false }
}

/// `value` clamped to `[min, max]`.
pub open spec fn clamp_spec(value: u32, min: u32, max: u32) -> u32 {
    if value < min {
        min
    } else if value > max {
        max
    } else {
        value
    }
}

/// `u32::clamp`, which panics when `min > max`.
fn clamp_u32(value: u32, min: u32, max: u32) -> (r: u32)
    requires
        min <= max,
    ensures
        r == clamp_spec(value, min, max),
{
    if value < min {
        min
    } else if value > max {
        max
    } else {
        value
    }
}

/// The surface's current extent when it has one; else the requested size
/// clamped to what the surface allows.
pub fn choose_extent(capabilities: &SurfaceCapabilities, width: u32, height: u32) -> (r: Extent2D)
    requires
        capabilities.current_extent.width == u32::MAX ==> {
            &&& capabilities.min_image_extent.width <= capabilities.max_image_extent.width
            &&& capabilities.min_image_extent.height <= capabilities.max_image_extent.height
        },
    ensures
        capabilities.current_extent.width != u32::MAX ==> r == capabilities.current_extent,
        capabilities.current_extent.width == u32::MAX ==> r == (Extent2D {
            width: clamp_spec(
                width,
                capabilities.min_image_extent.width,
                capabilities.max_image_extent.width,
            ),
            height: clamp_spec(
                height,
                capabilities.min_image_extent.height,
                capabilities.max_image_extent.height,
            ),
        }),
{
    if capabilities.current_extent.width != u32::MAX {
        capabilities.current_extent
    } else {
        Extent2D {
            width: clamp_u32(
                width,
                capabilities.min_image_extent.width,
                capabilities.max_image_extent.width,
            ),
            height: clamp_u32(
                height,
                capabilities.min_image_extent.height,
                capabilities.max_image_extent.height,
            ),
        }
    }
}

/// The requested number of images clamped to what the surface allows; a
/// maximum of 0 means there is no upper limit.
pub fn choose_image_count(capabilities: &SurfaceCapabilities, requested: u32) -> (r: u32)
    requires
        capabilities.max_image_count == 0 || capabilities.min_image_count
            <= capabilities.max_image_count,
    ensures
        capabilities.max_image_count == 0 ==> r == (if requested < capabilities.min_image_count {
            capabilities.min_image_count
        } else {
            requested
        }),
        capabilities.max_image_count != 0 ==> r == clamp_spec(
            requested,
            capabilities.min_image_count,
            capabilities.max_image_count,
        ),
{
    let min = capabilities.min_image_count;
    let max = capabilities.max_image_count;
    if max == 0 {
        if requested < min {
            min
        } else {
            requested
        }
    } else {
        clamp_u32(requested, min, max)
    }
}

/// The per-frame state of a swapchain: its images and, per frame slot, the
/// raw semaphores and fence of that slot; all sized to the number of images
/// the driver created, so that no slot is out of range.
pub struct SwapchainFrames {
    images: Vec<Image>,
    acquire_semaphores: Vec<u64>,
    present_semaphores: Vec<u64>,
    fences: Vec<u64>,
    frame_timeline: usize,
}

impl SwapchainFrames {
    /// Every slot has its image, semaphores and fence, and the current slot is one of them.
    pub closed spec fn wf(&self) -> bool {
        &&& self.images.len() > 0
        &&& self.acquire_semaphores.len() == self.images.len()
        &&& self.present_semaphores.len() == self.images.len()
        &&& self.fences.len() == self.images.len()
        &&& self.frame_timeline < self.images.len()
    }

    pub closed spec fn spec_images(&self) -> Seq<Image> {
        self.images@
    }

    pub closed spec fn spec_acquire_semaphores(&self) -> Seq<u64> {
        self.acquire_semaphores@
    }

    pub closed spec fn spec_present_semaphores(&self) -> Seq<u64> {
        self.present_semaphores@
    }

    pub closed spec fn spec_fences(&self) -> Seq<u64> {
        self.fences@
    }

    /// The slot the next frame uses.
    pub closed spec fn spec_slot(&self) -> usize {
        self.frame_timeline
    }

    /// Frame state for the driver's images with one set of synchronization
    /// objects per image; the first frame uses slot 0.
    pub fn new(
        images: Vec<Image>,
        acquire_semaphores: Vec<u64>,
        present_semaphores: Vec<u64>,
        fences: Vec<u64>,
    ) -> (r: SwapchainFrames)
        requires
            images@.len() > 0,
            acquire_semaphores@.len() == images@.len(),
            present_semaphores@.len() == images@.len(),
            fences@.len() == images@.len(),
        ensures
            r.wf(),
            r.spec_images() == images@,
            r.spec_acquire_semaphores() == acquire_semaphores@,
            r.spec_present_semaphores() == present_semaphores@,
            r.spec_fences() == fences@,
            r.spec_slot() == 0,
    {
        SwapchainFrames { images, acquire_semaphores, present_semaphores, fences, frame_timeline: 0 }
    }

    /// The number of images, and so of frame slots.
    pub fn image_count(&self) -> (r: usize)
        requires
            self.wf(),
        ensures
            r == self.spec_images().len(),
            r > 0,
    {
        self.images.len()
    }

    /// The images, in swapchain order.
    pub fn images(&self) -> (r: &Vec<Image>)
        ensures
            r@ == self.spec_images(),
    {
        &self.images
    }

    pub fn acquire_semaphores(&self) -> (r: &Vec<u64>)
        ensures
            r@ == self.spec_acquire_semaphores(),
    {
        &self.acquire_semaphores
    }

    pub fn present_semaphores(&self) -> (r: &Vec<u64>)
        ensures
            r@ == self.spec_present_semaphores(),
    {
        &self.present_semaphores
    }

    pub fn fences(&self) -> (r: &Vec<u64>)
        ensures
            r@ == self.spec_fences(),
    {
        &self.fences
    }

    /// The slot the next frame uses.
    pub fn current_slot(&self) -> (r: usize)
        requires
            self.wf(),
        ensures
            r == self.spec_slot(),
            r < self.spec_images().len(),
    {
        self.frame_timeline
    }

    /// The fence of the current slot, which the frame waits on before it reuses the slot.
    pub fn current_fence(&self) -> (r: u64)
        requires
            self.wf(),
        ensures
            r == self.spec_fences()[self.spec_slot() as int],
    {
        self.fences[self.frame_timeline]
    }

    /// The semaphore the current slot's acquisition signals.
    pub fn current_acquire_semaphore(&self) -> (r: u64)
        requires
            self.wf(),
        ensures
            r == self.spec_acquire_semaphores()[self.spec_slot() as int],
    {
        self.acquire_semaphores[self.frame_timeline]
    }

    /// The image the driver handed out at `image_index`, with the current
    /// slot's semaphores. The slot does not advance until the image is presented.
    pub fn acquired(&self, image_index: usize) -> (r: AcquiredImage)
        requires
            self.wf(),
            image_index < self.spec_images().len(),
        ensures
            r == (AcquiredImage {
                image: self.spec_images()[image_index as int],
                image_index,
                acquire_semaphore: self.spec_acquire_semaphores()[self.spec_slot() as int],
                present_semaphore: self.spec_present_semaphores()[self.spec_slot() as int],
                slot: self.spec_slot(),
            }),
    {
        let slot = self.frame_timeline;
        AcquiredImage {
            image: self.images[image_index],
            image_index,
            acquire_semaphore: self.acquire_semaphores[slot],
            present_semaphore: self.present_semaphores[slot],
            slot,
        }
    }

    /// After the image acquired in `slot` is presented, the next frame uses
    /// the following slot, going round.
    pub fn presented(&mut self, slot: usize)
        requires
            old(self).wf(),
            slot < old(self).spec_images().len(),
        ensures
            final(self).wf(),
            final(self).spec_images() == old(self).spec_images(),
            final(self).spec_acquire_semaphores() == old(self).spec_acquire_semaphores(),
            final(self).spec_present_semaphores() == old(self).spec_present_semaphores(),
            final(self).spec_fences() == old(self).spec_fences(),
            final(self).spec_slot() == (slot + 1) % (old(self).spec_images().len() as int),
    {
        self.frame_timeline = (slot + 1) % self.images.len();
    }
}

/// Presenting frame after frame visits the slots in turn: after the frame in
/// the last slot, the first slot is used again.
pub proof fn law_slots_go_round(slot: usize, count: usize)
    requires
        slot < count,
    ensures
        (slot + 1) % (count as int) == (if slot + 1 == count {
            0
        } else {
            slot + 1
        }),
        (slot + 1) % (count as int) < count,
{
    if slot + 1 == count {
        vstd::arithmetic::div_mod::lemma_mod_self_0(count as int);
    } else {
        vstd::arithmetic::div_mod::lemma_small_mod((slot + 1) as nat, count as nat);
    }
}

} // verus!
