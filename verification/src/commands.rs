use vstd::prelude::*;
use vstd::std_specs::ops::BitOrSpecImpl;

use crate::swapchain::AcquiredImage;
use crate::types::{Counter, Extent2D, Offset2D};
use crate::vk_raw::{
    STAGE_ACCELERATION_STRUCTURE_BUILD, STAGE_ACCELERATION_STRUCTURE_COPY, STAGE_ALL_COMMANDS, STAGE_ALL_GRAPHICS, STAGE_ALL_TRANSFER, STAGE_BLIT, STAGE_BOTTOM_OF_PIPE, STAGE_CLEAR, STAGE_COLOR_ATTACHMENT_OUTPUT, STAGE_COMPUTE_SHADER, STAGE_COPY, STAGE_DRAW_INDIRECT, STAGE_EARLY_FRAGMENT_TESTS, STAGE_FRAGMENT_SHADER, STAGE_GEOMETRY_SHADER, STAGE_HOST, STAGE_LATE_FRAGMENT_TESTS, STAGE_NONE, STAGE_RAY_TRACING_SHADER, STAGE_RESOLVE, STAGE_TESSELLATION_CONTROL_SHADER, STAGE_TESSELLATION_EVALUATION_SHADER, STAGE_TOP_OF_PIPE, STAGE_VERTEX_INPUT, STAGE_VERTEX_SHADER,
    LAYOUT_DEPTH_STENCIL_ATTACHMENT_OPTIMAL, LAYOUT_DEPTH_STENCIL_READ_ONLY_OPTIMAL,
};
use smallvec::SmallVec;

verus! {

/// The three hardware queues a command buffer can be recorded for.
#[derive(Clone, Copy, Debug, PartialEq, Eq, Structural)]
pub enum QueueType {
    Graphics,
    Compute,
    Transfer,
}

impl QueueType {
    /// The queue's number in the fixed order graphics, compute, transfer.
    pub open spec fn spec_index(self) -> nat {
        match self {
            QueueType::Graphics => 0,
            QueueType::Compute => 1,
            QueueType::Transfer => 2,
        }
    }

    /// The queue of a given number; numbers past the last queue have none.
    pub open spec fn spec_from_index(i: int) -> Option<QueueType> {
        if i == 0 {
            Some(QueueType::Graphics)
        } else if i == 1 {
            Some(QueueType::Compute)
        } else if i == 2 {
            Some(QueueType::Transfer)
        } else {
            None
        }
    }

    /// The queue's number: graphics 0, compute 1, transfer 2.
    pub fn index(self) -> (r: usize)
        ensures
            r == self.spec_index(),
    {
        match self {
            QueueType::Graphics => 0,
            QueueType::Compute => 1,
            QueueType::Transfer => 2,
        }
    }

    /// The queue of number `i`.
    pub fn from_index(i: usize) -> (r: QueueType)
        requires
            i < 3,
        ensures
            Some(r) == Self::spec_from_index(i as int),
            r.spec_index() == i,
    {
        if i == 0 {
            QueueType::Graphics
        } else if i == 1 {
            QueueType::Compute
        } else {
            QueueType::Transfer
        }
    }
}


/// Pipeline stage flags (`VkPipelineStageFlags2`).
/// Flags combine with `|`; `bits` holds the raw Vulkan bits.
#[derive(Clone, Copy, Debug, PartialEq, Eq, Hash, Structural)]
pub struct PipelineStage {
    pub bits: u64,
}

impl PipelineStage {
    /// The `NONE` flag.
    pub fn none() -> (r: Self)
        ensures
            r.bits == STAGE_NONE,
    {
        PipelineStage { bits: STAGE_NONE }
    }

    /// The `TOP_OF_PIPE` flag.
    pub fn top_of_pipe() -> (r: Self)
        ensures
            r.bits == STAGE_TOP_OF_PIPE,
    {
        PipelineStage { bits: STAGE_TOP_OF_PIPE }
    }

    /// The `BOTTOM_OF_PIPE` flag.
    pub fn bottom_of_pipe() -> (r: Self)
        ensures
            r.bits == STAGE_BOTTOM_OF_PIPE,
    {
        PipelineStage { bits: STAGE_BOTTOM_OF_PIPE }
    }

    /// The `DRAW_INDIRECT` flag.
    pub fn draw_indirect() -> (r: Self)
        ensures
            r.bits == STAGE_DRAW_INDIRECT,
    {
        PipelineStage { bits: STAGE_DRAW_INDIRECT }
    }

    /// The `VERTEX_INPUT` flag.
    pub fn vertex_input() -> (r: Self)
        ensures
            r.bits == STAGE_VERTEX_INPUT,
    {
        PipelineStage { bits: STAGE_VERTEX_INPUT }
    }

    /// The `VERTEX_SHADER` flag.
    pub fn vertex_shader() -> (r: Self)
        ensures
            r.bits == STAGE_VERTEX_SHADER,
    {
        PipelineStage { bits: STAGE_VERTEX_SHADER }
    }

    /// The `TESSELLATION_CONTROL_SHADER` flag.
    pub fn tessellation_control_shader() -> (r: Self)
        ensures
            r.bits == STAGE_TESSELLATION_CONTROL_SHADER,
    {
        PipelineStage { bits: STAGE_TESSELLATION_CONTROL_SHADER }
    }

    /// The `TESSELLATION_EVALUATION_SHADER` flag.
    pub fn tessellation_evaluation_shader() -> (r: Self)
        ensures
            r.bits == STAGE_TESSELLATION_EVALUATION_SHADER,
    {
        PipelineStage { bits: STAGE_TESSELLATION_EVALUATION_SHADER }
    }

    /// The `GEOMETRY_SHADER` flag.
    pub fn geometry_shader() -> (r: Self)
        ensures
            r.bits == STAGE_GEOMETRY_SHADER,
    {
        PipelineStage { bits: STAGE_GEOMETRY_SHADER }
    }

    /// The `FRAGMENT_SHADER` flag.
    pub fn fragment_shader() -> (r: Self)
        ensures
            r.bits == STAGE_FRAGMENT_SHADER,
    {
        PipelineStage { bits: STAGE_FRAGMENT_SHADER }
    }

    /// The `EARLY_FRAGMENT_TESTS` flag.
    pub fn early_fragment_tests() -> (r: Self)
        ensures
            r.bits == STAGE_EARLY_FRAGMENT_TESTS,
    {
        PipelineStage { bits: STAGE_EARLY_FRAGMENT_TESTS }
    }

    /// The `LATE_FRAGMENT_TESTS` flag.
    pub fn late_fragment_tests() -> (r: Self)
        ensures
            r.bits == STAGE_LATE_FRAGMENT_TESTS,
    {
        PipelineStage { bits: STAGE_LATE_FRAGMENT_TESTS }
    }

    /// The `COLOR_ATTACHMENT_OUTPUT` flag.
    pub fn color_attachment_output() -> (r: Self)
        ensures
            r.bits == STAGE_COLOR_ATTACHMENT_OUTPUT,
    {
        PipelineStage { bits: STAGE_COLOR_ATTACHMENT_OUTPUT }
    }

    /// The `COMPUTE_SHADER` flag.
    pub fn compute_shader() -> (r: Self)
        ensures
            r.bits == STAGE_COMPUTE_SHADER,
    {
        PipelineStage { bits: STAGE_COMPUTE_SHADER }
    }

    /// The `ALL_TRANSFER` flag.
    pub fn all_transfer() -> (r: Self)
        ensures
            r.bits == STAGE_ALL_TRANSFER,
    {
        PipelineStage { bits: STAGE_ALL_TRANSFER }
    }

    /// The `TRANSFER` flag.
    pub fn transfer() -> (r: Self)
        ensures
            r.bits == STAGE_ALL_TRANSFER,
    {
        PipelineStage { bits: STAGE_ALL_TRANSFER }
    }

    /// The `COPY` flag.
    pub fn copy() -> (r: Self)
        ensures
            r.bits == STAGE_COPY,
    {
        PipelineStage { bits: STAGE_COPY }
    }

    /// The `RESOLVE` flag.
    pub fn resolve() -> (r: Self)
        ensures
            r.bits == STAGE_RESOLVE,
    {
        PipelineStage { bits: STAGE_RESOLVE }
    }

    /// The `BLIT` flag.
    pub fn blit() -> (r: Self)
        ensures
            r.bits == STAGE_BLIT,
    {
        PipelineStage { bits: STAGE_BLIT }
    }

    /// The `CLEAR` flag.
    pub fn clear() -> (r: Self)
        ensures
            r.bits == STAGE_CLEAR,
    {
        PipelineStage { bits: STAGE_CLEAR }
    }

    /// The `RAY_TRACING_SHADER` flag.
    pub fn ray_tracing_shader() -> (r: Self)
        ensures
            r.bits == STAGE_RAY_TRACING_SHADER,
    {
        PipelineStage { bits: STAGE_RAY_TRACING_SHADER }
    }

    /// The `ACCELERATION_STRUCTURE_BUILD` flag.
    pub fn acceleration_structure_build() -> (r: Self)
        ensures
            r.bits == STAGE_ACCELERATION_STRUCTURE_BUILD,
    {
        PipelineStage { bits: STAGE_ACCELERATION_STRUCTURE_BUILD }
    }

    /// The `ACCELERATION_STRUCTURE_COPY` flag.
    pub fn acceleration_structure_copy() -> (r: Self)
        ensures
            r.bits == STAGE_ACCELERATION_STRUCTURE_COPY,
    {
        PipelineStage { bits: STAGE_ACCELERATION_STRUCTURE_COPY }
    }

    /// The `HOST` flag.
    pub fn host() -> (r: Self)
        ensures
            r.bits == STAGE_HOST,
    {
        PipelineStage { bits: STAGE_HOST }
    }

    /// The `ALL_GRAPHICS` flag.
    pub fn all_graphics() -> (r: Self)
        ensures
            r.bits == STAGE_ALL_GRAPHICS,
    {
        PipelineStage { bits: STAGE_ALL_GRAPHICS }
    }

    /// The `ALL_COMMANDS` flag.
    pub fn all_commands() -> (r: Self)
        ensures
            r.bits == STAGE_ALL_COMMANDS,
    {
        PipelineStage { bits: STAGE_ALL_COMMANDS }
    }

    /// The set with no flag.
    pub fn empty() -> (r: Self)
        ensures
            r.bits == 0,
    {
        PipelineStage { bits: 0 }
    }

    /// The flags with exactly these bits, known or not.
    pub fn from_bits_retain(bits: u64) -> (r: Self)
        ensures
            r.bits == bits,
    {
        PipelineStage { bits }
    }

    /// The raw bits.
    pub fn bits(&self) -> (r: u64)
        ensures
            r == self.bits,
    {
        self.bits
    }

    /// Whether no flag is set.
    pub fn is_empty(&self) -> (r: bool)
        ensures
            r == (self.bits == 0),
    {
        self.bits == 0
    }

    /// Whether every flag of `other` is set in `self`.
    pub fn contains(&self, other: Self) -> (r: bool)
        ensures
            r == (self.bits & other.bits == other.bits),
    {
        self.bits & other.bits == other.bits
    }
}

impl core::ops::BitOr for PipelineStage {
    type Output = PipelineStage;

    fn bitor(self, rhs: PipelineStage) -> (r: PipelineStage) {
        PipelineStage { bits: self.bits | rhs.bits }
    }
}

impl BitOrSpecImpl for PipelineStage {
    open spec fn obeys_bitor_spec() -> bool {
        true
    }

    open spec fn bitor_req(self, rhs: PipelineStage) -> bool {
        true
    }

    open spec fn bitor_spec(self, rhs: PipelineStage) -> PipelineStage {
        PipelineStage { bits: self.bits | rhs.bits }
    }
}

/// Which semaphore a command buffer waits on before it runs.
#[derive(Clone, Copy, Debug, PartialEq, Eq, Structural)]
pub enum WaitTarget {
    /// The timeline semaphore of a queue.
    Timeline(QueueType),
    /// A binary semaphore, by its raw `VkSemaphore` handle.
    Binary(u64),
}

/// One semaphore wait of a submission.
#[derive(Clone, Copy, Debug, PartialEq, Eq, Structural)]
pub struct SemaphoreWait {
    pub target: WaitTarget,
    /// The timeline value waited for; 0 for a binary semaphore.
    pub value: u64,
    /// The stages that wait.
    pub stage: PipelineStage,
}

/// Whether one more wait can be appended to a wait list holding `len` waits.
/// A full list grows to the next power of two above `len`, fewer than
/// `2 * (len + 1)` waits, and an allocation spans at most `isize::MAX` bytes.
pub open spec fn wait_fits(len: nat) -> bool {
    &&& (len + 1) * 2 <= isize::MAX
    &&& (len + 1) * 2 * vstd::layout::size_of::<SemaphoreWait>() <= isize::MAX
}

/// The waits of a command buffer, in a `SmallVec` with room for three inline.
#[verifier::external_body]
pub struct WaitList {
    inner: SmallVec<[SemaphoreWait; 3]>,
}

/// The waits a wait list holds, in order.
pub uninterp spec fn wait_list(v: WaitList) -> Seq<SemaphoreWait>;

/// `SmallVec::new`: an empty wait list.
#[verifier::external_body]
fn wait_list_new() -> (r: WaitList)
    ensures
        wait_list(r) == Seq::<SemaphoreWait>::empty(),
{
    WaitList { inner: SmallVec::new() }
}

/// `SmallVec::push`: appends a wait at the end. When the list is full it
/// grows to the next power of two above its length; it panics only when that
/// capacity overflows `usize` or its bytes exceed `isize::MAX`, which
/// `wait_fits` rules out.
#[verifier::external_body]
fn wait_list_push(v: &mut WaitList, wait: SemaphoreWait)
    requires
        wait_fits(wait_list(*old(v)).len()),
    ensures
        wait_list(*final(v)) == wait_list(*old(v)).push(wait),
{
    v.inner.push(wait)
}

/// `SmallVec::as_slice`: the waits as a slice, in order.
#[verifier::external_body]
fn wait_list_as_slice(v: &WaitList) -> (r: &[SemaphoreWait])
    ensures
        r@ == wait_list(*v),
{
    v.inner.as_slice()
}

/// A command buffer being recorded: its raw `VkCommandBuffer` handle, its
/// queue, the pool of its thread's ring it came from, and the semaphores its
/// submission waits on.
pub struct CommandBuffer {
    handle: u64,
    queue: QueueType,
    pool_idx: usize,
    waits: WaitList,
}

impl CommandBuffer {
    pub closed spec fn spec_handle(&self) -> u64 {
        self.handle
    }

    pub closed spec fn spec_queue(&self) -> QueueType {
        self.queue
    }

    pub closed spec fn spec_pool_idx(&self) -> usize {
        self.pool_idx
    }

    /// The waits recorded so far, in order.
    pub closed spec fn spec_waits(&self) -> Seq<SemaphoreWait> {
        wait_list(self.waits)
    }

    /// A command buffer with no wait yet.
    pub fn new(handle: u64, queue: QueueType, pool_idx: usize) -> (r: CommandBuffer)
        ensures
            r.spec_handle() == handle,
            r.spec_queue() == queue,
            r.spec_pool_idx() == pool_idx,
            r.spec_waits() == Seq::<SemaphoreWait>::empty(),
    {
        CommandBuffer { handle, queue, pool_idx, waits: wait_list_new() }
    }

    pub fn handle(&self) -> (r: u64)
        ensures
            r == self.spec_handle(),
    {
        self.handle
    }

    pub fn queue(&self) -> (r: QueueType)
        ensures
            r == self.spec_queue(),
    {
        self.queue
    }

    pub fn pool_idx(&self) -> (r: usize)
        ensures
            r == self.spec_pool_idx(),
    {
        self.pool_idx
    }

    /// The waits recorded so far, in order.
    pub fn waits(&self) -> (r: &[SemaphoreWait])
        ensures
            r@ == self.spec_waits(),
    {
        wait_list_as_slice(&self.waits)
    }

    /// Whether one more wait can be recorded without growing the wait list
    /// past what an allocation can hold.
    pub fn has_room_for_wait(&self) -> (r: bool)
        ensures
            r == wait_fits(self.spec_waits().len()),
    {
        let len = wait_list_as_slice(&self.waits).len();
        let size = core::mem::size_of::<SemaphoreWait>();
        vstd::layout::layout_for_type_is_valid::<SemaphoreWait>();
        let max: usize = isize::MAX as usize;
        proof {
            lemma_mul_le_iff_le_div((len + 1) as int, 2, max as int);
        }
        if len >= max / 2 {
            return false;
        }
        if size == 0 {
            return true;
        }
        let d: usize = 2 * size;
        proof {
            lemma_mul_le_iff_le_div((len + 1) as int, d as int, max as int);
            assert((len + 1) * 2 * size == (len + 1) * d) by (nonlinear_arith)
                requires
                    d == 2 * size,
            ;
        }
        len + 1 <= max / d
    }

    /// Makes this command buffer wait, at `stage`, for the work that `counter`
    /// stands for. Work of the command buffer's own queue is already ordered
    /// before it, so such a counter adds no wait.
    pub fn wait_for(&mut self, counter: Counter, stage: PipelineStage)
        requires
            counter.queue() != old(self).spec_queue() ==> wait_fits(old(self).spec_waits().len()),
        ensures
            final(self).spec_handle() == old(self).spec_handle(),
            final(self).spec_queue() == old(self).spec_queue(),
            final(self).spec_pool_idx() == old(self).spec_pool_idx(),
            final(self).spec_waits() == (if counter.queue() == old(self).spec_queue() {
                old(self).spec_waits()
            } else {
                old(self).spec_waits().push(
                    SemaphoreWait {
                        target: WaitTarget::Timeline(counter.queue()),
                        value: counter.value(),
                        stage,
                    },
                )
            }),
    {
        let (queue, value) = counter.decode();
        if queue == self.queue {
            return ;
        }
        wait_list_push(
            &mut self.waits,
            SemaphoreWait { target: WaitTarget::Timeline(queue), value, stage },
        );
    }

    /// Makes this command buffer's colour output wait until the swapchain image is acquired.
    pub fn wait_for_swapchain_image(&mut self, image: &AcquiredImage)
        requires
            wait_fits(old(self).spec_waits().len()),
        ensures
            final(self).spec_handle() == old(self).spec_handle(),
            final(self).spec_queue() == old(self).spec_queue(),
            final(self).spec_pool_idx() == old(self).spec_pool_idx(),
            final(self).spec_waits() == old(self).spec_waits().push(
                SemaphoreWait {
                    target: WaitTarget::Binary(image.acquire_semaphore),
                    value: 0,
                    stage: PipelineStage { bits: STAGE_COLOR_ATTACHMENT_OUTPUT },
                },
            ),
    {
        wait_list_push(
            &mut self.waits,
            SemaphoreWait {
                target: WaitTarget::Binary(image.acquire_semaphore),
                value: 0,
                stage: PipelineStage::color_attachment_output(),
            },
        );
    }
}

/// The area a rendering pass draws to.
#[derive(Clone, Copy, Debug, PartialEq, Eq, Structural)]
pub struct RenderArea {
    pub offset: Offset2D,
    pub extent: Extent2D,
}

#[derive(Clone, Copy, Debug, PartialEq, Eq, Structural)]
pub enum LoadOp {
    Load,
    Clear,
    DontCare,
}

impl LoadOp {
    /// The `VkAttachmentLoadOp` value.
    pub fn vk_value(&self) -> (r: i32)
        ensures
            r == (match *self {
                LoadOp::Load => 0i32,
                LoadOp::Clear => 1i32,
                LoadOp::DontCare => 2i32,
            }),
    {
        match self {
            LoadOp::Load => 0,
            LoadOp::Clear => 1,
            LoadOp::DontCare => 2,
        }
    }
}

#[derive(Clone, Copy, Debug, PartialEq, Eq, Structural)]
pub enum StoreOp {
    Store,
    DontCare,
    /// `VK_ATTACHMENT_STORE_OP_NONE`: the attachment is not written.
    Nothing,
}

impl StoreOp {
    /// The `VkAttachmentStoreOp` value.
    pub fn vk_value(&self) -> (r: i32)
        ensures
            r == (match *self {
                StoreOp::Store => 0i32,
                StoreOp::DontCare => 1i32,
                StoreOp::Nothing => 1_000_301_000i32,
            }),
    {
        match self {
            StoreOp::Store => 0,
            StoreOp::DontCare => 1,
            StoreOp::Nothing => 1_000_301_000,
        }
    }

    /// The layout a depth or stencil attachment is rendered in: read-only when
    /// nothing is stored, else the attachment layout.
    pub open spec fn spec_depth_stencil_layout(self) -> i32 {
        if self == StoreOp::Nothing {
            LAYOUT_DEPTH_STENCIL_READ_ONLY_OPTIMAL
        } else {
            LAYOUT_DEPTH_STENCIL_ATTACHMENT_OPTIMAL
        }
    }

    /// The layout a depth or stencil attachment with this store operation is rendered in.
    pub fn depth_stencil_layout(&self) -> (r: i32)
        ensures
            r == self.spec_depth_stencil_layout(),
    {
        match self {
            StoreOp::Nothing => LAYOUT_DEPTH_STENCIL_READ_ONLY_OPTIMAL,
            _ => LAYOUT_DEPTH_STENCIL_ATTACHMENT_OPTIMAL,
        }
    }
}

#[derive(Clone, Copy, Debug, PartialEq, Eq, Structural)]
pub enum ResolveMode {
    /// `VK_RESOLVE_MODE_NONE`: no resolve.
    Nothing,
    SampleZero,
    Average,
    Min,
    Max,
}

impl ResolveMode {
    /// The `VkResolveModeFlagBits` value.
    pub fn vk_value(&self) -> (r: u32)
        ensures
            r == (match *self {
                ResolveMode::Nothing => 0u32,
                ResolveMode::SampleZero => 1u32,
                ResolveMode::Average => 2u32,
                ResolveMode::Min => 4u32,
                ResolveMode::Max => 8u32,
            }),
    {
        match self {
            ResolveMode::Nothing => 0,
            ResolveMode::SampleZero => 1,
            ResolveMode::Average => 2,
            ResolveMode::Min => 4,
            ResolveMode::Max => 8,
        }
    }
}

/// Dynamic rendering flags (`VkRenderingFlags`).
/// Flags combine with `|`; `bits` holds the raw Vulkan bits.
#[derive(Clone, Copy, Debug, PartialEq, Eq, Hash, Structural)]
pub struct RenderingFlags {
    pub bits: u32,
}

impl RenderingFlags {
    /// The `NONE` flag.
    pub fn none() -> (r: Self)
        ensures
            r.bits == 0x0,
    {
        RenderingFlags { bits: 0x0 }
    }

    /// The `CONTENTS_SECONDARY_COMMAND_BUFFERS` flag.
    pub fn contents_secondary_command_buffers() -> (r: Self)
        ensures
            r.bits == 0x1,
    {
        RenderingFlags { bits: 0x1 }
    }

    /// The `SUSPENDING` flag.
    pub fn suspending() -> (r: Self)
        ensures
            r.bits == 0x2,
    {
        RenderingFlags { bits: 0x2 }
    }

    /// The `RESUMING` flag.
    pub fn resuming() -> (r: Self)
        ensures
            r.bits == 0x4,
    {
        RenderingFlags { bits: 0x4 }
    }

    /// The set with no flag.
    pub fn empty() -> (r: Self)
        ensures
            r.bits == 0,
    {
        RenderingFlags { bits: 0 }
    }

    /// The flags with exactly these bits, known or not.
    pub fn from_bits_retain(bits: u32) -> (r: Self)
        ensures
            r.bits == bits,
    {
        RenderingFlags { bits }
    }

    /// The raw bits.
    pub fn bits(&self) -> (r: u32)
        ensures
            r == self.bits,
    {
        self.bits
    }

    /// Whether no flag is set.
    pub fn is_empty(&self) -> (r: bool)
        ensures
            r == (self.bits == 0),
    {
        self.bits == 0
    }

    /// Whether every flag of `other` is set in `self`.
    pub fn contains(&self, other: Self) -> (r: bool)
        ensures
            r == (self.bits & other.bits == other.bits),
    {
        self.bits & other.bits == other.bits
    }
}

impl core::ops::BitOr for RenderingFlags {
    type Output = RenderingFlags;

    fn bitor(self, rhs: RenderingFlags) -> (r: RenderingFlags) {
        RenderingFlags { bits: self.bits | rhs.bits }
    }
}

impl BitOrSpecImpl for RenderingFlags {
    open spec fn obeys_bitor_spec() -> bool {
        true
    }

    open spec fn bitor_req(self, rhs: RenderingFlags) -> bool {
        true
    }

    open spec fn bitor_spec(self, rhs: RenderingFlags) -> RenderingFlags {
        RenderingFlags { bits: self.bits | rhs.bits }
    }
}

/// For `d > 0`, a multiple `a * d` stays within `m` exactly when `a` is at most `m / d`.
proof fn lemma_mul_le_iff_le_div(a: int, d: int, m: int)
    requires
        a >= 0,
        d > 0,
        m >= 0,
    ensures
        (a * d <= m) == (a <= m / d),
{
    vstd::arithmetic::div_mod::lemma_fundamental_div_mod(m, d);
    assert((a * d <= m) == (a <= m / d)) by (nonlinear_arith)
        requires
            a >= 0,
            d > 0,
            m == d * (m / d) + m % d,
            0 <= m % d < d,
    ;
}

/// Only an attachment whose contents are not stored is rendered read-only:
/// a depth or stencil attachment is in the read-only layout exactly when its
/// store operation is `Nothing`, and in the writable attachment layout for
/// every other store operation.
pub proof fn law_only_unstored_attachments_are_read_only(op: StoreOp)
    ensures
        (op.spec_depth_stencil_layout() == LAYOUT_DEPTH_STENCIL_READ_ONLY_OPTIMAL) == (op
            == StoreOp::Nothing),
        op != StoreOp::Nothing ==> op.spec_depth_stencil_layout()
            == LAYOUT_DEPTH_STENCIL_ATTACHMENT_OPTIMAL,
{
}

} // verus!
