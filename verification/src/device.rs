//! Choosing the physical device, its queue families and the extensions to enable.
use vstd::prelude::*;

verus! {

/// `VK_QUEUE_GRAPHICS_BIT`.
pub const QUEUE_GRAPHICS: u32 = 0x1;

/// `VK_QUEUE_COMPUTE_BIT`.
pub const QUEUE_COMPUTE: u32 = 0x2;

/// `VK_QUEUE_TRANSFER_BIT`.
pub const QUEUE_TRANSFER: u32 = 0x4;

/// `VK_PHYSICAL_DEVICE_TYPE_INTEGRATED_GPU`.
pub const DEVICE_TYPE_INTEGRATED_GPU: i32 = 1;

/// `VK_PHYSICAL_DEVICE_TYPE_DISCRETE_GPU`.
pub const DEVICE_TYPE_DISCRETE_GPU: i32 = 2;

/// The queue families the three queues come from.
#[derive(Clone, Copy, Debug, PartialEq, Eq, Structural)]
pub struct QueueFamilyIndices {
    pub graphics_family: Option<u32>,
    pub transfer_family: Option<u32>,
    pub compute_family: Option<u32>,
}

impl QueueFamilyIndices {
    pub open spec fn spec_is_complete(&self) -> bool {
        self.graphics_family.is_some() && self.compute_family.is_some()
            && self.transfer_family.is_some()
    }

    /// Whether a family was found for every queue.
    pub fn is_complete(&self) -> (r: bool)
        ensures
            r == self.spec_is_complete(),
    {
        self.graphics_family.is_some() && self.compute_family.is_some()
            && self.transfer_family.is_some()
    }
}

/// The three kinds of queue family the device needs.
#[derive(Clone, Copy, Debug, PartialEq, Eq, Structural)]
pub enum FamilyKind {
    /// Any family with graphics.
    Graphics,
    /// A family with compute but without graphics.
    DedicatedCompute,
    /// A family with transfer but neither graphics nor compute.
    DedicatedTransfer,
    /// Any family with compute.
    AnyCompute,
    /// Any family with transfer.
    AnyTransfer,
}

pub open spec fn has_flag(flags: u32, bit: u32) -> bool {
    flags & bit == bit
}

/// Whether a family with the given `VkQueueFlags` is of the given kind.
pub open spec fn family_is(kind: FamilyKind, flags: u32) -> bool {
    match kind {
        FamilyKind::Graphics => has_flag(flags, QUEUE_GRAPHICS),
        FamilyKind::DedicatedCompute => has_flag(flags, QUEUE_COMPUTE) && !has_flag(
            flags,
            QUEUE_GRAPHICS,
        ),
        FamilyKind::DedicatedTransfer => has_flag(flags, QUEUE_TRANSFER) && !has_flag(
            flags,
            QUEUE_GRAPHICS,
        ) && !has_flag(flags, QUEUE_COMPUTE),
        FamilyKind::AnyCompute => has_flag(flags, QUEUE_COMPUTE),
        FamilyKind::AnyTransfer => has_flag(flags, QUEUE_TRANSFER),
    }
}

/// `preferred` when there is one, else `fallback`.
pub open spec fn prefer(preferred: Option<u32>, fallback: Option<u32>) -> Option<u32> {
    if preferred.is_some() {
        preferred
    } else {
        fallback
    }
}

/// The index of the first family of the given kind.
pub open spec fn first_family(families: Seq<u32>, kind: FamilyKind) -> Option<u32>
    decreases families.len(),
{
    if families.len() == 0 {
        None
    } else {
        match first_family(families.drop_last(), kind) {
            Some(i) => Some(i),
            None => if family_is(kind, families.last()) {
                Some((families.len() - 1) as u32)
            } else {
                None
            },
        }
    }
}

/// The queue families for the three queues, when the device has all three:
/// the first graphics family; the first compute family without graphics, else
/// the first compute family; the first transfer family with neither graphics
/// nor compute, else the first transfer family. Dedicated families are used
/// where the device has them.
pub open spec fn spec_queue_families(families: Seq<u32>) -> Option<QueueFamilyIndices> {
    let g = first_family(families, FamilyKind::Graphics);
    let c = prefer(
        first_family(families, FamilyKind::DedicatedCompute),
        first_family(families, FamilyKind::AnyCompute),
    );
    let t = prefer(
        first_family(families, FamilyKind::DedicatedTransfer),
        first_family(families, FamilyKind::AnyTransfer),
    );
    if g.is_some() && c.is_some() && t.is_some() {
        Some(QueueFamilyIndices { graphics_family: g, transfer_family: t, compute_family: c })
    } else {
        None
    }
}

proof fn lemma_first_family_prefix(families: Seq<u32>, n: int, kind: FamilyKind)
    requires
        0 <= n <= families.len(),
        first_family(families.take(n), kind).is_some(),
    ensures
        first_family(families, kind) == first_family(families.take(n), kind),
    decreases families.len() - n,
{
    if n == families.len() {
        assert(families.take(n) =~= families);
    } else {
        let rest = families.drop_last();
        assert(rest.take(n) =~= families.take(n));
        lemma_first_family_prefix(rest, n, kind);
    }
}

fn family_is_exec(kind: FamilyKind, flags: u32) -> (r: bool)
    ensures
        r == family_is(kind, flags),
{
    let g = flags & QUEUE_GRAPHICS == QUEUE_GRAPHICS;
    let c = flags & QUEUE_COMPUTE == QUEUE_COMPUTE;
    let t = flags & QUEUE_TRANSFER == QUEUE_TRANSFER;
    match kind {
        FamilyKind::Graphics => g,
        FamilyKind::DedicatedCompute => c && !g,
        FamilyKind::DedicatedTransfer => t && !g && !c,
        FamilyKind::AnyCompute => c,
        FamilyKind::AnyTransfer => t,
    }
}

/// The queue families for the device, from the `VkQueueFlags` of each of its
/// families: the first graphics family; a compute family without graphics if
/// possible, else any compute family; a transfer family without graphics and
/// compute if possible, else any transfer family. `None` when the device lacks
/// graphics, compute or transfer altogether.
pub fn find_queue_families(families: &[u32]) -> (r: Option<QueueFamilyIndices>)
    requires
        families@.len() <= 0x1_0000_0000,
    ensures
        r == spec_queue_families(families@),
{
    let mut g: Option<u32> = None;
    let mut dc: Option<u32> = None;
    let mut dt: Option<u32> = None;
    let mut ac: Option<u32> = None;
    let mut at: Option<u32> = None;
    let len = families.len();
    let mut i: usize = 0;
    while i < len
        invariant_except_break
            len == families@.len(),
            len <= 0x1_0000_0000,
            i <= len,
            g == first_family(families@.take(i as int), FamilyKind::Graphics),
            dc == first_family(families@.take(i as int), FamilyKind::DedicatedCompute),
            dt == first_family(families@.take(i as int), FamilyKind::DedicatedTransfer),
            ac == first_family(families@.take(i as int), FamilyKind::AnyCompute),
            at == first_family(families@.take(i as int), FamilyKind::AnyTransfer),
        ensures
            i <= len,
            g == first_family(families@.take(i as int), FamilyKind::Graphics),
            dc == first_family(families@.take(i as int), FamilyKind::DedicatedCompute),
            dt == first_family(families@.take(i as int), FamilyKind::DedicatedTransfer),
            ac == first_family(families@.take(i as int), FamilyKind::AnyCompute),
            at == first_family(families@.take(i as int), FamilyKind::AnyTransfer),
            i < len ==> g.is_some() && dc.is_some() && dt.is_some(),
        decreases len - i,
    {
        let flags = families[i];
        proof {
            assert(families@.take(i + 1).drop_last() =~= families@.take(i as int));
            assert(families@.take(i + 1).last() == families@[i as int]);
        }
        if family_is_exec(FamilyKind::Graphics, flags) && g.is_none() {
            g = Some(i as u32);
        }
        if family_is_exec(FamilyKind::DedicatedCompute, flags) && dc.is_none() {
            dc = Some(i as u32);
        }
        if family_is_exec(FamilyKind::DedicatedTransfer, flags) && dt.is_none() {
            dt = Some(i as u32);
        }
        if family_is_exec(FamilyKind::AnyCompute, flags) && ac.is_none() {
            ac = Some(i as u32);
        }
        if family_is_exec(FamilyKind::AnyTransfer, flags) && at.is_none() {
            at = Some(i as u32);
        }
        i = i + 1;
        // With all dedicated families found, no fallback is needed.
        if g.is_some() && dc.is_some() && dt.is_some() {
            break;
        }
    }
    proof {
        if i < len {
            lemma_first_family_prefix(families@, i as int, FamilyKind::Graphics);
            lemma_first_family_prefix(families@, i as int, FamilyKind::DedicatedCompute);
            lemma_first_family_prefix(families@, i as int, FamilyKind::DedicatedTransfer);
        } else {
            assert(families@.take(i as int) =~= families@);
        }
    }
    let c = if dc.is_some() {
        dc
    } else {
        ac
    };
    let t = if dt.is_some() {
        dt
    } else {
        at
    };
    let indices = QueueFamilyIndices { graphics_family: g, transfer_family: t, compute_family: c };
    if indices.is_complete() {
        Some(indices)
    } else {
        None
    }
}

/// The base score of a device type: discrete 1000, integrated 100, others 10.
pub open spec fn type_score(device_type: i32) -> int {
    if device_type == DEVICE_TYPE_DISCRETE_GPU {
        1000
    } else if device_type == DEVICE_TYPE_INTEGRATED_GPU {
        100
    } else {
        10
    }
}

/// The largest 2D image dimension read as an `i32`, as the bits are.
pub open spec fn dimension_as_i32(max_image_dimension_2d: u32) -> int {
    if max_image_dimension_2d <= 0x7fff_ffff {
        max_image_dimension_2d as int
    } else {
        max_image_dimension_2d - 0x1_0000_0000
    }
}

/// A device's score: its type's score plus, as a tie-breaker, its largest 2D image dimension.
pub open spec fn spec_device_score(device_type: i32, max_image_dimension_2d: u32) -> int {
    type_score(device_type) + dimension_as_i32(max_image_dimension_2d)
}

/// Whether the score fits an `i32`.
pub open spec fn score_fits(device_type: i32, max_image_dimension_2d: u32) -> bool {
    spec_device_score(device_type, max_image_dimension_2d) <= i32::MAX
}

/// Whether a device's score can be computed without overflowing an `i32`.
pub fn device_score_fits(device_type: i32, max_image_dimension_2d: u32) -> (r: bool)
    ensures
        r == score_fits(device_type, max_image_dimension_2d),
{
    let base: i64 = if device_type == DEVICE_TYPE_DISCRETE_GPU {
        1000
    } else if device_type == DEVICE_TYPE_INTEGRATED_GPU {
        100
    } else {
        10
    };
    let dim: i64 = if max_image_dimension_2d <= 0x7fff_ffff {
        max_image_dimension_2d as i64
    } else {
        max_image_dimension_2d as i64 - 0x1_0000_0000
    };
    base + dim <= 0x7fff_ffff
}

/// A device's score: discrete 1000, integrated 100, others 10, plus the largest 2D image dimension.
pub fn device_score(device_type: i32, max_image_dimension_2d: u32) -> (r: i32)
    requires
        score_fits(device_type, max_image_dimension_2d),
    ensures
        r == spec_device_score(device_type, max_image_dimension_2d),
{
    let base: i64 = if device_type == DEVICE_TYPE_DISCRETE_GPU {
        1000
    } else if device_type == DEVICE_TYPE_INTEGRATED_GPU {
        100
    } else {
        10
    };
    let dim: i64 = if max_image_dimension_2d <= 0x7fff_ffff {
        max_image_dimension_2d as i64
    } else {
        max_image_dimension_2d as i64 - 0x1_0000_0000
    };
    (base + dim) as i32
}

/// What device selection reads of one physical device.
#[derive(Clone, Copy, Debug, PartialEq, Eq, Structural)]
pub struct DeviceCandidate {
    /// `VkPhysicalDeviceType`.
    pub device_type: i32,
    pub max_image_dimension_2d: u32,
    pub queue_families: Option<QueueFamilyIndices>,
    /// Whether the device supports every required extension.
    pub extensions_supported: bool,
}

impl DeviceCandidate {
    /// A device can be used when it has the queue families and the extensions.
    pub open spec fn is_eligible(self) -> bool {
        self.queue_families.is_some() && self.extensions_supported
    }

    pub open spec fn score(self) -> int {
        spec_device_score(self.device_type, self.max_image_dimension_2d)
    }
}

/// The device to use: the first eligible device with the highest score;
/// `None` when no device is eligible. The score of an eligible device must fit an `i32`.
pub fn select_physical_device(candidates: &[DeviceCandidate]) -> (r: Option<usize>)
    requires
        forall|i: int|
            0 <= i < candidates@.len() && #[trigger] candidates@[i].is_eligible() ==> score_fits(
                candidates@[i].device_type,
                candidates@[i].max_image_dimension_2d,
            ),
    ensures
        match r {
            Some(best) => {
                &&& best < candidates@.len()
                &&& candidates@[best as int].is_eligible()
                &&& forall|j: int|
                    0 <= j < candidates@.len() && #[trigger] candidates@[j].is_eligible()
                        ==> candidates@[j].score() <= candidates@[best as int].score()
                &&& forall|j: int|
                    0 <= j < best && #[trigger] candidates@[j].is_eligible()
                        ==> candidates@[j].score() < candidates@[best as int].score()
            },
            None => forall|j: int|
                0 <= j < candidates@.len() ==> !#[trigger] candidates@[j].is_eligible(),
        },
{
    let mut best: Option<usize> = None;
    let mut best_score: i32 = 0;
    let len = candidates.len();
    let mut i: usize = 0;
    while i < len
        invariant
            len == candidates@.len(),
            i <= len,
            forall|k: int|
                0 <= k < candidates@.len() && #[trigger] candidates@[k].is_eligible() ==> score_fits(
                    candidates@[k].device_type,
                    candidates@[k].max_image_dimension_2d,
                ),
            match best {
                Some(b) => {
                    &&& b < i
                    &&& candidates@[b as int].is_eligible()
                    &&& best_score == candidates@[b as int].score()
                    &&& forall|j: int|
                        0 <= j < i && #[trigger] candidates@[j].is_eligible()
                            ==> candidates@[j].score() <= best_score
                    &&& forall|j: int|
                        0 <= j < b && #[trigger] candidates@[j].is_eligible()
                            ==> candidates@[j].score() < best_score
                },
                None => forall|j: int| 0 <= j < i ==> !#[trigger] candidates@[j].is_eligible(),
            },
        decreases len - i,
    {
        let c = candidates[i];
        if c.queue_families.is_some() && c.extensions_supported {
            assert(candidates@[i as int].is_eligible());
            let score = device_score(c.device_type, c.max_image_dimension_2d);
            match best {
                Some(_) => {
                    if score > best_score {
                        best = Some(i);
                        best_score = score;
                    }
                },
                None => {
                    best = Some(i);
                    best_score = score;
                },
            }
        }
        i = i + 1;
    }
    best
}

/// Whether two byte strings are equal.
fn bytes_equal(a: &[u8], b: &[u8]) -> (r: bool)
    ensures
        r == (a@ == b@),
{
    if a.len() != b.len() {
        return false;
    }
    let len = a.len();
    let mut i: usize = 0;
    while i < len
        invariant
            len == a@.len(),
            len == b@.len(),
            i <= len,
            forall|j: int| 0 <= j < i ==> a@[j] == b@[j],
        decreases len - i,
    {
        if a[i] != b[i] {
            return false;
        }
        i = i + 1;
    }
    proof {
        assert(a@ =~= b@);
    }
    true
}

/// Whether `name` is one of `available`.
pub open spec fn name_listed(name: Seq<u8>, available: Seq<Vec<u8>>) -> bool {
    exists|j: int| 0 <= j < available.len() && (#[trigger] available[j])@ == name
}

fn is_listed(name: &Vec<u8>, available: &[Vec<u8>]) -> (r: bool)
    ensures
        r == name_listed(name@, available@),
{
    let len = available.len();
    let mut j: usize = 0;
    while j < len
        invariant
            len == available@.len(),
            j <= len,
            forall|k: int| 0 <= k < j ==> (#[trigger] available@[k])@ != name@,
        decreases len - j,
    {
        if bytes_equal(available[j].as_slice(), name.as_slice()) {
            return true;
        }
        j = j + 1;
    }
    false
}

/// Whether every required extension name (without its terminating nul) is
/// among the names the device offers.
pub fn extensions_supported(required: &[Vec<u8>], available: &[Vec<u8>]) -> (r: bool)
    ensures
        r == forall|i: int|
            0 <= i < required@.len() ==> name_listed((#[trigger] required@[i])@, available@),
{
    let len = required.len();
    let mut i: usize = 0;
    while i < len
        invariant
            len == required@.len(),
            i <= len,
            forall|k: int| 0 <= k < i ==> name_listed((#[trigger] required@[k])@, available@),
        decreases len - i,
    {
        if !is_listed(&required[i], available) {
            return false;
        }
        i = i + 1;
    }
    true
}

/// A device extension the library may enable.
#[derive(Clone, Copy, Debug, PartialEq, Eq, Structural)]
pub enum DeviceExtension {
    Swapchain,
    Synchronization2,
    AccelerationStructure,
    RayTracingPipeline,
    DeferredHostOperations,
    ShaderAtomicFloat,
    MeshShader,
    ShaderFloatControls,
    Spirv14,
}

/// The device extensions for the requested features, in the order they are enabled.
pub open spec fn spec_device_extensions(
    ray_tracing: bool,
    atomic_float_operations: bool,
    mesh_shaders: bool,
) -> Seq<DeviceExtension> {
    let base = seq![DeviceExtension::Swapchain, DeviceExtension::Synchronization2];
    let rt = if ray_tracing {
        seq![
            DeviceExtension::AccelerationStructure,
            DeviceExtension::RayTracingPipeline,
            DeviceExtension::DeferredHostOperations,
        ]
    } else {
        Seq::empty()
    };
    let atomic = if atomic_float_operations {
        seq![DeviceExtension::ShaderAtomicFloat]
    } else {
        Seq::empty()
    };
    let mesh = if mesh_shaders {
        seq![DeviceExtension::MeshShader, DeviceExtension::ShaderFloatControls]
    } else {
        Seq::empty()
    };
    let spirv = if mesh_shaders || ray_tracing {
        seq![DeviceExtension::Spirv14]
    } else {
        Seq::empty()
    };
    base + rt + atomic + mesh + spirv
}

/// The device extensions to enable: swapchain and synchronization2 always,
/// then those of ray tracing, float atomics and mesh shaders as requested,
/// and SPIR-V 1.4 for ray tracing or mesh shaders.
pub fn required_device_extensions(
    ray_tracing: bool,
    atomic_float_operations: bool,
    mesh_shaders: bool,
) -> (r: Vec<DeviceExtension>)
    ensures
        r@ == spec_device_extensions(ray_tracing, atomic_float_operations, mesh_shaders),
{
    let mut v: Vec<DeviceExtension> = Vec::new();
    v.push(DeviceExtension::Swapchain);
    v.push(DeviceExtension::Synchronization2);
    if ray_tracing {
        v.push(DeviceExtension::AccelerationStructure);
        v.push(DeviceExtension::RayTracingPipeline);
        v.push(DeviceExtension::DeferredHostOperations);
    }
    if atomic_float_operations {
        v.push(DeviceExtension::ShaderAtomicFloat);
    }
    if mesh_shaders {
        v.push(DeviceExtension::MeshShader);
        v.push(DeviceExtension::ShaderFloatControls);
    }
    if mesh_shaders || ray_tracing {
        v.push(DeviceExtension::Spirv14);
    }
    proof {
        assert(v@ =~= spec_device_extensions(ray_tracing, atomic_float_operations, mesh_shaders));
    }
    v
}

/// Whether `s` is strictly increasing.
pub open spec fn strictly_increasing(s: Seq<u32>) -> bool {
    forall|i: int, j: int| 0 <= i < j < s.len() ==> s[i] < s[j]
}

/// The distinct values of `values` in increasing order: the queue families to
/// create queues in, each once.
pub fn unique_families(values: &[u32]) -> (r: Vec<u32>)
    ensures
        strictly_increasing(r@),
        forall|x: u32| r@.contains(x) <==> values@.contains(x),
{
    let mut r: Vec<u32> = Vec::new();
    let len = values.len();
    let mut i: usize = 0;
    while i < len
        invariant
            len == values@.len(),
            i <= len,
            strictly_increasing(r@),
            forall|x: u32| r@.contains(x) <==> values@.take(i as int).contains(x),
        decreases len - i,
    {
        let x = values[i];
        let n = r.len();
        let mut p: usize = 0;
        while p < n && r[p] < x
            invariant
                n == r@.len(),
                p <= n,
                forall|k: int| 0 <= k < p ==> r@[k] < x,
            decreases n - p,
        {
            p = p + 1;
        }
        let ghost old_r = r@;
        if p < n && r[p] == x {
        } else {
            r.insert(p, x);
            proof {
                assert forall|a: int, b: int| 0 <= a < b < r@.len() implies r@[a] < r@[b] by {
                    if b < p {
                    } else if a < p && b == p {
                    } else if a < p {
                        assert(r@[b] == old_r[b - 1]);
                        assert(old_r[a] < old_r[b - 1] || a == b - 1);
                    } else if a == p {
                        assert(r@[b] == old_r[b - 1]);
                        assert(x <= old_r[p as int]);
                        assert(x != old_r[p as int]);
                        if b - 1 > p {
                            assert(old_r[p as int] < old_r[b - 1]);
                        }
                    } else {
                        assert(r@[a] == old_r[a - 1]);
                        assert(r@[b] == old_r[b - 1]);
                    }
                }
            }
        }
        proof {
            let prev = values@.take(i as int);
            let next = values@.take(i + 1);
            assert(next =~= prev.push(x));
            assert forall|y: u32| r@.contains(y) <==> next.contains(y) by {
                if r@.contains(y) {
                    let k = choose|k: int| 0 <= k < r@.len() && r@[k] == y;
                    if y != x {
                        if p < n && old_r[p as int] == x {
                            assert(old_r.contains(y));
                        } else {
                            if k < p {
                                assert(old_r[k] == y);
                            } else {
                                assert(old_r[k - 1] == y);
                            }
                            assert(old_r.contains(y));
                        }
                        assert(prev.contains(y));
                        let m = choose|m: int| 0 <= m < prev.len() && prev[m] == y;
                        assert(next[m] == y);
                    } else {
                        assert(next[i as int] == x);
                    }
                }
                if next.contains(y) {
                    let m = choose|m: int| 0 <= m < next.len() && next[m] == y;
                    if m < i {
                        assert(prev[m] == y);
                        assert(prev.contains(y));
                        assert(old_r.contains(y));
                        let k = choose|k: int| 0 <= k < old_r.len() && old_r[k] == y;
                        if p < n && old_r[p as int] == x {
                            assert(r@[k] == y);
                        } else if k < p {
                            assert(r@[k] == y);
                        } else {
                            assert(r@[k + 1] == y);
                        }
                    } else {
                        if p < n && old_r[p as int] == x {
                            assert(r@[p as int] == y);
                        } else {
                            assert(r@[p as int] == y);
                        }
                    }
                }
            }
        }
        i = i + 1;
    }
    proof {
        assert(values@.take(len as int) =~= values@);
    }
    r
}

/// The windowing system of the window the library presents to.
#[derive(Clone, Copy, Debug, PartialEq, Eq, Structural)]
pub enum WindowSystem {
    Win32,
    Wayland,
    Xcb,
    Xlib,
    AppKit,
    /// A windowing system the library has no surface extension for.
    Other,
}

/// An instance extension the library may enable.
#[derive(Clone, Copy, Debug, PartialEq, Eq, Structural)]
pub enum InstanceExtension {
    Surface,
    Win32Surface,
    WaylandSurface,
    XcbSurface,
    XlibSurface,
    MetalSurface,
    DebugUtils,
}

/// The surface extension of a windowing system.
pub open spec fn spec_surface_extension(window: WindowSystem) -> Option<InstanceExtension> {
    match window {
        WindowSystem::Win32 => Some(InstanceExtension::Win32Surface),
        WindowSystem::Wayland => Some(InstanceExtension::WaylandSurface),
        WindowSystem::Xcb => Some(InstanceExtension::XcbSurface),
        WindowSystem::Xlib => Some(InstanceExtension::XlibSurface),
        WindowSystem::AppKit => Some(InstanceExtension::MetalSurface),
        WindowSystem::Other => None,
    }
}

/// The surface extension of a windowing system, if the library has one.
pub fn surface_extension(window: WindowSystem) -> (r: Option<InstanceExtension>)
    ensures
        r == spec_surface_extension(window),
{
    match window {
        WindowSystem::Win32 => Some(InstanceExtension::Win32Surface),
        WindowSystem::Wayland => Some(InstanceExtension::WaylandSurface),
        WindowSystem::Xcb => Some(InstanceExtension::XcbSurface),
        WindowSystem::Xlib => Some(InstanceExtension::XlibSurface),
        WindowSystem::AppKit => Some(InstanceExtension::MetalSurface),
        WindowSystem::Other => None,
    }
}

/// The instance extensions to enable, and the window's surface extension
/// when the driver does not offer it (which is then left out).
pub struct InstanceExtensionPlan {
    pub extensions: Vec<InstanceExtension>,
    pub unsupported_surface: Option<InstanceExtension>,
}

/// The window's surface extension, when there is a window and it has one.
pub open spec fn window_surface(window: Option<WindowSystem>) -> Option<InstanceExtension> {
    match window {
        Some(w) => spec_surface_extension(w),
        None => None,
    }
}

/// The instance extensions: the surface extension; the window's platform
/// surface extension if the driver offers it; debug utils when validation is
/// on.
pub open spec fn spec_instance_extensions(
    window: Option<WindowSystem>,
    enable_validation_layers: bool,
    supported: Seq<InstanceExtension>,
) -> Seq<InstanceExtension> {
    let platform = match window_surface(window) {
        Some(e) => if supported.contains(e) {
            seq![e]
        } else {
            Seq::empty()
        },
        None => Seq::empty(),
    };
    let debug = if enable_validation_layers {
        seq![InstanceExtension::DebugUtils]
    } else {
        Seq::empty()
    };
    seq![InstanceExtension::Surface] + platform + debug
}

fn contains_extension(list: &[InstanceExtension], e: InstanceExtension) -> (r: bool)
    ensures
        r == list@.contains(e),
{
    let len = list.len();
    let mut i: usize = 0;
    while i < len
        invariant
            len == list@.len(),
            i <= len,
            forall|j: int| 0 <= j < i ==> list@[j] != e,
        decreases len - i,
    {
        if list[i] == e {
            return true;
        }
        i = i + 1;
    }
    false
}

/// The instance extensions to enable for the window and validation choice,
/// given the extensions the driver offers.
pub fn required_instance_extensions(
    window: Option<WindowSystem>,
    enable_validation_layers: bool,
    supported: &[InstanceExtension],
) -> (r: InstanceExtensionPlan)
    ensures
        r.extensions@ == spec_instance_extensions(window, enable_validation_layers, supported@),
        r.unsupported_surface == (match window_surface(window) {
            Some(e) => if supported@.contains(e) {
                None
            } else {
                Some(e)
            },
            None => None,
        }),
{
    let mut extensions: Vec<InstanceExtension> = Vec::new();
    extensions.push(InstanceExtension::Surface);
    let mut unsupported_surface: Option<InstanceExtension> = None;
    let platform = match window {
        Some(w) => surface_extension(w),
        None => None,
    };
    match platform {
        Some(e) => {
            if contains_extension(supported, e) {
                extensions.push(e);
            } else {
                unsupported_surface = Some(e);
            }
        },
        None => {},
    }
    if enable_validation_layers {
        extensions.push(InstanceExtension::DebugUtils);
    }
    proof {
        assert(extensions@ =~= spec_instance_extensions(window, enable_validation_layers, supported@));
    }
    InstanceExtensionPlan { extensions, unsupported_surface }
}

/// The device extensions follow the requested features, for every request:
/// swapchain and synchronization2 always; acceleration structures, ray tracing
/// pipelines and deferred host operations exactly with ray tracing; shader
/// float atomics exactly with float atomics; mesh shaders and shader float
/// controls exactly with mesh shaders; SPIR-V 1.4 exactly when ray tracing or
/// mesh shaders are requested. No extension is listed twice.
pub proof fn law_device_extensions_follow_features(
    ray_tracing: bool,
    atomic_float_operations: bool,
    mesh_shaders: bool,
)
    ensures
        ({
            let e = spec_device_extensions(ray_tracing, atomic_float_operations, mesh_shaders);
            &&& e.contains(DeviceExtension::Swapchain)
            &&& e.contains(DeviceExtension::Synchronization2)
            &&& e.contains(DeviceExtension::AccelerationStructure) == ray_tracing
            &&& e.contains(DeviceExtension::RayTracingPipeline) == ray_tracing
            &&& e.contains(DeviceExtension::DeferredHostOperations) == ray_tracing
            &&& e.contains(DeviceExtension::ShaderAtomicFloat) == atomic_float_operations
            &&& e.contains(DeviceExtension::MeshShader) == mesh_shaders
            &&& e.contains(DeviceExtension::ShaderFloatControls) == mesh_shaders
            &&& e.contains(DeviceExtension::Spirv14) == (ray_tracing || mesh_shaders)
            &&& e.no_duplicates()
        }),
{
    broadcast use vstd::seq_lib::lemma_seq_concat_contains_all_elements;
    broadcast use vstd::seq_lib::lemma_seq_contains_after_push;
    broadcast use vstd::seq_lib::lemma_seq_empty_contains_nothing;

    let base = seq![DeviceExtension::Swapchain, DeviceExtension::Synchronization2];
    let rt = if ray_tracing {
        seq![
            DeviceExtension::AccelerationStructure,
            DeviceExtension::RayTracingPipeline,
            DeviceExtension::DeferredHostOperations,
        ]
    } else {
        Seq::empty()
    };
    let atomic = if atomic_float_operations {
        seq![DeviceExtension::ShaderAtomicFloat]
    } else {
        Seq::empty()
    };
    let mesh = if mesh_shaders {
        seq![DeviceExtension::MeshShader, DeviceExtension::ShaderFloatControls]
    } else {
        Seq::empty()
    };
    let spirv = if ray_tracing || mesh_shaders {
        seq![DeviceExtension::Spirv14]
    } else {
        Seq::empty()
    };
    let e = spec_device_extensions(ray_tracing, atomic_float_operations, mesh_shaders);
    assert(e == base + rt + atomic + mesh + spirv);
    // no duplicates: each piece has distinct extensions, and the pieces share none
    let a1 = base + rt;
    let a2 = a1 + atomic;
    let a3 = a2 + mesh;
    assert(base.no_duplicates());
    assert(rt.no_duplicates());
    assert(mesh.no_duplicates());
    vstd::seq_lib::lemma_no_dup_in_concat(base, rt);
    vstd::seq_lib::lemma_no_dup_in_concat(a1, atomic);
    assert forall|i: int, j: int| 0 <= i < a2.len() && 0 <= j < mesh.len() implies a2[i] != mesh[j] by {
        assert(a2.contains(a2[i]));
    }
    vstd::seq_lib::lemma_no_dup_in_concat(a2, mesh);
    assert forall|i: int, j: int| 0 <= i < a3.len() && 0 <= j < spirv.len() implies a3[i] != spirv[j] by {
        assert(a3.contains(a3[i]));
    }
    vstd::seq_lib::lemma_no_dup_in_concat(a3, spirv);
}

/// Every windowing system the library presents to has its own platform surface
/// extension (Win32, Wayland, Xcb, Xlib, and Metal for AppKit), different for
/// different systems and never the generic surface or debug extension; other
/// systems have none.
pub proof fn law_each_window_system_has_its_surface_extension(w1: WindowSystem, w2: WindowSystem)
    ensures
        (w1 == WindowSystem::Other) == spec_surface_extension(w1).is_none(),
        w1 != w2 && w1 != WindowSystem::Other ==> spec_surface_extension(w1) != spec_surface_extension(w2),
        spec_surface_extension(w1) != Some(InstanceExtension::Surface),
        spec_surface_extension(w1) != Some(InstanceExtension::DebugUtils),
        spec_surface_extension(WindowSystem::Win32) == Some(InstanceExtension::Win32Surface),
        spec_surface_extension(WindowSystem::Wayland) == Some(InstanceExtension::WaylandSurface),
        spec_surface_extension(WindowSystem::Xcb) == Some(InstanceExtension::XcbSurface),
        spec_surface_extension(WindowSystem::Xlib) == Some(InstanceExtension::XlibSurface),
        spec_surface_extension(WindowSystem::AppKit) == Some(InstanceExtension::MetalSurface),
{
}

/// The instance extensions hold the generic surface extension always, debug
/// utils exactly when validation is on, and, for a window of a system the
/// library supports, that system's surface extension exactly when the driver
/// offers it (else it is reported as unsupported).
pub proof fn law_window_surface_enabled_when_offered(
    window: WindowSystem,
    enable_validation_layers: bool,
    supported: Seq<InstanceExtension>,
)
    requires
        window != WindowSystem::Other,
    ensures
        ({
            let e = spec_instance_extensions(Some(window), enable_validation_layers, supported);
            let platform = spec_surface_extension(window).unwrap();
            &&& e.contains(InstanceExtension::Surface)
            &&& e.contains(InstanceExtension::DebugUtils) == enable_validation_layers
            &&& e.contains(platform) == supported.contains(platform)
        }),
{
    let e = spec_instance_extensions(Some(window), enable_validation_layers, supported);
    let platform = spec_surface_extension(window).unwrap();
    assert(e[0] == InstanceExtension::Surface);
    if supported.contains(platform) {
        assert(e[1] == platform);
    } else {
        assert(!e.contains(platform)) by {
            if e.contains(platform) {
                let i = choose|i: int| 0 <= i < e.len() && e[i] == platform;
            }
        }
    }
    if enable_validation_layers {
        assert(e[e.len() - 1] == InstanceExtension::DebugUtils);
    } else {
        assert(!e.contains(InstanceExtension::DebugUtils)) by {
            if e.contains(InstanceExtension::DebugUtils) {
                let i = choose|i: int| 0 <= i < e.len() && e[i] == InstanceExtension::DebugUtils;
            }
        }
    }
}

} // verus!
