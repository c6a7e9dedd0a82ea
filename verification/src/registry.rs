//! The registries of live buffers and images: slot maps from a resource's key
//! (in its 64-bit form) to what the library keeps of the resource and its memory.
use vstd::prelude::*;

use gpu_allocator::vulkan::Allocation;
use slotmap::{DefaultKey, Key, KeyData, SlotMap};

use crate::barrier::{build_image_barrier, spec_fold_accesses, spec_image_transition, ImageBarrier, ImageTransition};
use crate::types::{Buffer, Image, ImageSubresources, ImageView, NULL_RESOURCE_KEY};
use crate::vk_raw::QUEUE_FAMILY_IGNORED;

verus! {

/// `gpu_allocator::vulkan::Allocation`: the memory of a resource, carried
/// through unread.
#[verifier::external_type_specification]
#[verifier::external_body]
pub struct ExAllocation(Allocation);

/// A registry holds fewer resources than this: at this many a slot map is full.
pub const MAX_REGISTERED: usize = 0xffff_fffe;

/// The key an id is read as. A slot map reads the low 32 bits of the 64-bit
/// form as the slot and the high 32 bits as the version, which it makes odd;
/// an odd version sets bit 32.
pub open spec fn registry_key(id: u64) -> u64 {
    id | 0x1_0000_0000
}

/// What the registry keeps of a buffer besides its memory: the raw `VkBuffer`,
/// its size in bytes and its device address.
#[derive(Clone, Copy, Debug, PartialEq, Eq, Structural)]
pub struct BufferRecord {
    pub buffer: u64,
    pub size: u64,
    pub device_address: u64,
}

/// A view of a registered image: the raw `VkImageView`, the registry key of
/// its image and the subresources it covers.
#[derive(Clone, Copy, Debug, PartialEq, Eq, Structural)]
pub struct ViewRecord {
    pub view: u64,
    pub image: u64,
    pub subresources: ImageSubresources,
}

/// What the registry keeps of an image besides its memory: the raw `VkImage`
/// and its raw `VkFormat`.
#[derive(Clone, Copy, Debug, PartialEq, Eq, Structural)]
pub struct ImageRecord {
    pub image: u64,
    pub format: i32,
}

/// The full image memory barrier of a barrier on a view: the masks and
/// layouts, the view's image and subresources, and the queue family indices,
/// which are ignored (no ownership transfer).
#[derive(Clone, Copy, Debug, PartialEq, Eq, Structural)]
pub struct ImageMemoryBarrier {
    pub transition: ImageTransition,
    pub image: u64,
    pub subresources: ImageSubresources,
    pub src_queue_family_index: u32,
    pub dst_queue_family_index: u32,
}

/// The live buffers: a `SlotMap` from key to record and memory allocation.
#[verifier::external_body]
pub struct BufferRegistry {
    map: SlotMap<DefaultKey, (BufferRecord, Allocation)>,
}

/// The records of the live buffers, by key.
pub uninterp spec fn buffer_entries(r: BufferRegistry) -> Map<u64, BufferRecord>;

/// `SlotMap::new`: no buffer is registered.
#[verifier::external_body]
fn buffer_registry_new() -> (registry: BufferRegistry)
    ensures
        buffer_entries(registry).is_empty(),
{
    BufferRegistry { map: SlotMap::new() }
}

/// `SlotMap::len`: the number of live entries.
#[verifier::external_body]
fn buffer_registry_len(r: &BufferRegistry) -> (n: usize)
    ensures
        n == buffer_entries(*r).len(),
{
    r.map.len()
}

/// `SlotMap::insert`: the entry goes in under a key no live entry has, in the
/// 64-bit form of `KeyData::as_ffi`. Its version is odd and its slot is below
/// `u32::MAX`. The map panics only when full, which the length bound rules out.
#[verifier::external_body]
fn buffer_registry_insert(r: &mut BufferRegistry, record: BufferRecord, allocation: Allocation) -> (id: u64)
    requires
        buffer_entries(*old(r)).len() < MAX_REGISTERED,
    ensures
        !buffer_entries(*old(r)).contains_key(id),
        buffer_entries(*final(r)) == buffer_entries(*old(r)).insert(id, record),
        registry_key(id) == id,
        id % 0x1_0000_0000 < 0xffff_ffff,
{
    r.map.insert((record, allocation)).data().as_ffi()
}

/// `SlotMap::get`, keeping the record: the record of the live entry with the
/// key `id` is read as, if any.
#[verifier::external_body]
fn buffer_registry_get(r: &BufferRegistry, id: u64) -> (res: Option<BufferRecord>)
    ensures
        res == buffer_entries(*r).get(registry_key(id)),
{
    r.map.get(KeyData::from_ffi(id).into()).map(|e| e.0)
}

/// `SlotMap::get`, keeping the allocation: there is one exactly when the key
/// `id` is read as is live. Which allocation it is (the one registered with
/// the entry) is not stated: the allocation is opaque here.
#[verifier::external_body]
fn buffer_registry_allocation(r: &BufferRegistry, id: u64) -> (res: Option<&Allocation>)
    ensures
        res.is_some() == buffer_entries(*r).contains_key(registry_key(id)),
{
    r.map.get(KeyData::from_ffi(id).into()).map(|e| &e.1)
}

/// `SlotMap::remove`: takes out the live entry with the key `id` is read as,
/// if any. That the allocation handed back is the one registered with the
/// record is not stated: the allocation is opaque here.
#[verifier::external_body]
fn buffer_registry_remove(r: &mut BufferRegistry, id: u64) -> (res: Option<(BufferRecord, Allocation)>)
    ensures
        match res {
            Some(entry) => {
                &&& buffer_entries(*old(r)).contains_key(registry_key(id))
                &&& entry.0 == buffer_entries(*old(r))[registry_key(id)]
                &&& buffer_entries(*final(r)) == buffer_entries(*old(r)).remove(registry_key(id))
            },
            None => {
                &&& !buffer_entries(*old(r)).contains_key(registry_key(id))
                &&& buffer_entries(*final(r)) == buffer_entries(*old(r))
            },
        },
{
    r.map.remove(KeyData::from_ffi(id).into())
}

/// `SlotMap::keys`: every live key once, in the 64-bit form, whose version is odd.
#[verifier::external_body]
fn buffer_registry_keys(r: &BufferRegistry) -> (keys: Vec<u64>)
    ensures
        keys@.no_duplicates(),
        forall|k: u64| keys@.contains(k) <==> buffer_entries(*r).contains_key(k),
        forall|i: int| 0 <= i < keys@.len() ==> registry_key(#[trigger] keys@[i]) == keys@[i],
{
    r.map.keys().map(|k| k.data().as_ffi()).collect()
}

/// The live images: a `SlotMap` from key to record and memory allocation.
#[verifier::external_body]
pub struct ImageRegistry {
    map: SlotMap<DefaultKey, (ImageRecord, Allocation)>,
}

/// The records of the live images, by key.
pub uninterp spec fn image_entries(r: ImageRegistry) -> Map<u64, ImageRecord>;

/// `SlotMap::new`: no image is registered.
#[verifier::external_body]
fn image_registry_new() -> (registry: ImageRegistry)
    ensures
        image_entries(registry).is_empty(),
{
    ImageRegistry { map: SlotMap::new() }
}

/// `SlotMap::len`: the number of live entries.
#[verifier::external_body]
fn image_registry_len(r: &ImageRegistry) -> (n: usize)
    ensures
        n == image_entries(*r).len(),
{
    r.map.len()
}

/// `SlotMap::insert`: as for buffers.
#[verifier::external_body]
fn image_registry_insert(r: &mut ImageRegistry, record: ImageRecord, allocation: Allocation) -> (id: u64)
    requires
        image_entries(*old(r)).len() < MAX_REGISTERED,
    ensures
        !image_entries(*old(r)).contains_key(id),
        image_entries(*final(r)) == image_entries(*old(r)).insert(id, record),
        registry_key(id) == id,
        id % 0x1_0000_0000 < 0xffff_ffff,
{
    r.map.insert((record, allocation)).data().as_ffi()
}

/// `SlotMap::get`, keeping the record.
#[verifier::external_body]
fn image_registry_get(r: &ImageRegistry, id: u64) -> (res: Option<ImageRecord>)
    ensures
        res == image_entries(*r).get(registry_key(id)),
{
    r.map.get(KeyData::from_ffi(id).into()).map(|e| e.0)
}

/// `SlotMap::remove`: as for buffers.
#[verifier::external_body]
fn image_registry_remove(r: &mut ImageRegistry, id: u64) -> (res: Option<(ImageRecord, Allocation)>)
    ensures
        match res {
            Some(entry) => {
                &&& image_entries(*old(r)).contains_key(registry_key(id))
                &&& entry.0 == image_entries(*old(r))[registry_key(id)]
                &&& image_entries(*final(r)) == image_entries(*old(r)).remove(registry_key(id))
            },
            None => {
                &&& !image_entries(*old(r)).contains_key(registry_key(id))
                &&& image_entries(*final(r)) == image_entries(*old(r))
            },
        },
{
    r.map.remove(KeyData::from_ffi(id).into())
}

/// `SlotMap::keys`: every live key once, in the 64-bit form, whose version is odd.
#[verifier::external_body]
fn image_registry_keys(r: &ImageRegistry) -> (keys: Vec<u64>)
    ensures
        keys@.no_duplicates(),
        forall|k: u64| keys@.contains(k) <==> image_entries(*r).contains_key(k),
        forall|i: int| 0 <= i < keys@.len() ==> registry_key(#[trigger] keys@[i]) == keys@[i],
{
    r.map.keys().map(|k| k.data().as_ffi()).collect()
}

/// The live image views: a `SlotMap` from key to record.
#[verifier::external_body]
pub struct ViewRegistry {
    map: SlotMap<DefaultKey, ViewRecord>,
}

/// The records of the live views, by key.
pub uninterp spec fn view_entries(r: ViewRegistry) -> Map<u64, ViewRecord>;

/// `SlotMap::new`: no view is registered.
#[verifier::external_body]
fn view_registry_new() -> (registry: ViewRegistry)
    ensures
        view_entries(registry).is_empty(),
{
    ViewRegistry { map: SlotMap::new() }
}

/// `SlotMap::len`: the number of live entries.
#[verifier::external_body]
fn view_registry_len(r: &ViewRegistry) -> (n: usize)
    ensures
        n == view_entries(*r).len(),
{
    r.map.len()
}

/// `SlotMap::insert`: as for buffers.
#[verifier::external_body]
fn view_registry_insert(r: &mut ViewRegistry, record: ViewRecord) -> (id: u64)
    requires
        view_entries(*old(r)).len() < MAX_REGISTERED,
    ensures
        !view_entries(*old(r)).contains_key(id),
        view_entries(*final(r)) == view_entries(*old(r)).insert(id, record),
        registry_key(id) == id,
        id % 0x1_0000_0000 < 0xffff_ffff,
{
    r.map.insert(record).data().as_ffi()
}

/// `SlotMap::get`, copying the record out.
#[verifier::external_body]
fn view_registry_get(r: &ViewRegistry, id: u64) -> (res: Option<ViewRecord>)
    ensures
        res == view_entries(*r).get(registry_key(id)),
{
    r.map.get(KeyData::from_ffi(id).into()).copied()
}

/// `SlotMap::remove`: as for buffers.
#[verifier::external_body]
fn view_registry_remove(r: &mut ViewRegistry, id: u64) -> (res: Option<ViewRecord>)
    ensures
        res == view_entries(*old(r)).get(registry_key(id)),
        view_entries(*final(r)) == view_entries(*old(r)).remove(registry_key(id)),
{
    r.map.remove(KeyData::from_ffi(id).into())
}

/// `SlotMap::keys`: every live key once, in the 64-bit form, whose version is odd.
#[verifier::external_body]
fn view_registry_keys(r: &ViewRegistry) -> (keys: Vec<u64>)
    ensures
        keys@.no_duplicates(),
        forall|k: u64| keys@.contains(k) <==> view_entries(*r).contains_key(k),
        forall|i: int| 0 <= i < keys@.len() ==> registry_key(#[trigger] keys@[i]) == keys@[i],
{
    r.map.keys().map(|k| k.data().as_ffi()).collect()
}

impl BufferRegistry {
    /// No buffer is registered.
    pub fn new() -> (r: BufferRegistry)
        ensures
            buffer_entries(r).is_empty(),
    {
        buffer_registry_new()
    }

    /// The number of registered buffers.
    pub fn len(&self) -> (n: usize)
        ensures
            n == buffer_entries(*self).len(),
    {
        buffer_registry_len(self)
    }

    /// Registers a buffer with its memory and hands out its handle: the raw
    /// buffer and a key that no registered buffer has.
    pub fn register(&mut self, record: BufferRecord, allocation: Allocation) -> (r: Buffer)
        requires
            buffer_entries(*old(self)).len() < MAX_REGISTERED,
        ensures
            r.raw == record.buffer,
            !buffer_entries(*old(self)).contains_key(r.id),
            buffer_entries(*final(self)) == buffer_entries(*old(self)).insert(r.id, record),
            registry_key(r.id) == r.id,
            r.id != NULL_RESOURCE_KEY,
            r.id % 0x1_0000_0000 < 0xffff_ffff,
    {
        let id = buffer_registry_insert(self, record, allocation);
        Buffer { raw: record.buffer, id }
    }

    /// The record of a registered buffer; `None` when the buffer is not registered.
    pub fn record(&self, buffer: &Buffer) -> (r: Option<BufferRecord>)
        ensures
            r == buffer_entries(*self).get(registry_key(buffer.id)),
    {
        buffer_registry_get(self, buffer.id)
    }

    /// The memory of a registered buffer; `None` when the buffer is not registered.
    pub fn allocation(&self, buffer: &Buffer) -> (r: Option<&Allocation>)
        ensures
            r.is_some() == buffer_entries(*self).contains_key(registry_key(buffer.id)),
    {
        buffer_registry_allocation(self, buffer.id)
    }

    /// Takes the buffer with key `id` out of the registry, with its memory, so
    /// that both can be destroyed; `None` when it is not registered (destroyed already).
    pub fn unregister(&mut self, id: u64) -> (r: Option<(BufferRecord, Allocation)>)
        ensures
            match r {
                Some(entry) => {
                    &&& buffer_entries(*old(self)).contains_key(registry_key(id))
                    &&& entry.0 == buffer_entries(*old(self))[registry_key(id)]
                    &&& buffer_entries(*final(self)) == buffer_entries(*old(self)).remove(
                        registry_key(id),
                    )
                },
                None => {
                    &&& !buffer_entries(*old(self)).contains_key(registry_key(id))
                    &&& buffer_entries(*final(self)) == buffer_entries(*old(self))
                },
            },
    {
        buffer_registry_remove(self, id)
    }

    /// The keys of the registered buffers, each once.
    pub fn ids(&self) -> (r: Vec<u64>)
        ensures
            r@.no_duplicates(),
            forall|k: u64| r@.contains(k) <==> buffer_entries(*self).contains_key(k),
    {
        buffer_registry_keys(self)
    }
}

impl ImageRegistry {
    /// No image is registered.
    pub fn new() -> (r: ImageRegistry)
        ensures
            image_entries(r).is_empty(),
    {
        image_registry_new()
    }

    /// The number of registered images.
    pub fn len(&self) -> (n: usize)
        ensures
            n == image_entries(*self).len(),
    {
        image_registry_len(self)
    }

    /// Registers an image with its memory and hands out its key, which no
    /// registered image has.
    pub fn register(&mut self, record: ImageRecord, allocation: Allocation) -> (id: u64)
        requires
            image_entries(*old(self)).len() < MAX_REGISTERED,
        ensures
            !image_entries(*old(self)).contains_key(id),
            image_entries(*final(self)) == image_entries(*old(self)).insert(id, record),
            registry_key(id) == id,
            id != NULL_RESOURCE_KEY,
            id % 0x1_0000_0000 < 0xffff_ffff,
    {
        image_registry_insert(self, record, allocation)
    }

    /// The record of the image with key `image_key`; `None` when it is not registered.
    pub fn record(&self, image_key: u64) -> (r: Option<ImageRecord>)
        ensures
            r == image_entries(*self).get(registry_key(image_key)),
    {
        image_registry_get(self, image_key)
    }

    /// Takes the image with key `image_key` out of the registry, with its
    /// memory, so that both can be destroyed; `None` when it is not registered
    /// (destroyed already).
    pub fn unregister(&mut self, image_key: u64) -> (r: Option<(ImageRecord, Allocation)>)
        ensures
            match r {
                Some(entry) => {
                    &&& image_entries(*old(self)).contains_key(registry_key(image_key))
                    &&& entry.0 == image_entries(*old(self))[registry_key(image_key)]
                    &&& image_entries(*final(self)) == image_entries(*old(self)).remove(
                        registry_key(image_key),
                    )
                },
                None => {
                    &&& !image_entries(*old(self)).contains_key(registry_key(image_key))
                    &&& image_entries(*final(self)) == image_entries(*old(self))
                },
            },
    {
        image_registry_remove(self, image_key)
    }

    /// The keys of the registered images, each once.
    pub fn ids(&self) -> (r: Vec<u64>)
        ensures
            r@.no_duplicates(),
            forall|k: u64| r@.contains(k) <==> image_entries(*self).contains_key(k),
    {
        image_registry_keys(self)
    }
}

impl ViewRegistry {
    /// No view is registered.
    pub fn new() -> (r: ViewRegistry)
        ensures
            view_entries(r).is_empty(),
    {
        view_registry_new()
    }

    /// The number of registered views.
    pub fn len(&self) -> (n: usize)
        ensures
            n == view_entries(*self).len(),
    {
        view_registry_len(self)
    }

    /// Registers a view and hands out its handle: the raw view and a key that
    /// no registered view has.
    pub fn register(&mut self, record: ViewRecord) -> (r: ImageView)
        requires
            view_entries(*old(self)).len() < MAX_REGISTERED,
        ensures
            r.raw == record.view,
            !view_entries(*old(self)).contains_key(r.id),
            view_entries(*final(self)) == view_entries(*old(self)).insert(r.id, record),
            registry_key(r.id) == r.id,
            r.id != NULL_RESOURCE_KEY,
    {
        let id = view_registry_insert(self, record);
        ImageView { raw: record.view, id }
    }

    /// The record of a registered view; `None` when it is not registered.
    pub fn record(&self, view: &ImageView) -> (r: Option<ViewRecord>)
        ensures
            r == view_entries(*self).get(registry_key(view.id)),
    {
        view_registry_get(self, view.id)
    }

    /// Takes the view with key `id` out of the registry; `None` when it is not registered.
    pub fn unregister(&mut self, id: u64) -> (r: Option<ViewRecord>)
        ensures
            r == view_entries(*old(self)).get(registry_key(id)),
            view_entries(*final(self)) == view_entries(*old(self)).remove(registry_key(id)),
    {
        view_registry_remove(self, id)
    }

    /// The keys of the registered views, each once.
    pub fn ids(&self) -> (r: Vec<u64>)
        ensures
            r@.no_duplicates(),
            forall|k: u64| r@.contains(k) <==> view_entries(*self).contains_key(k),
    {
        view_registry_keys(self)
    }

    /// The keys of the registered views of the image with key `image_key`, each once.
    pub fn views_of(&self, image_key: u64) -> (r: Vec<u64>)
        ensures
            r@.no_duplicates(),
            forall|k: u64|
                r@.contains(k) <==> view_entries(*self).contains_key(k) && view_entries(*self)[k].image
                    == registry_key(image_key),
    {
        let all = view_registry_keys(self);
        let wanted: u64 = image_key | 0x1_0000_0000;
        let mut r: Vec<u64> = Vec::new();
        let len = all.len();
        let mut i: usize = 0;
        while i < len
            invariant
                len == all@.len(),
                i <= len,
                all@.no_duplicates(),
                forall|k: u64| all@.contains(k) <==> view_entries(*self).contains_key(k),
                forall|j: int| 0 <= j < all@.len() ==> registry_key(#[trigger] all@[j]) == all@[j],
                wanted == registry_key(image_key),
                r@.no_duplicates(),
                forall|k: u64|
                    r@.contains(k) <==> all@.take(i as int).contains(k) && view_entries(*self).contains_key(k)
                        && view_entries(*self)[k].image == wanted,
            decreases len - i,
        {
            let k = all[i];
            let ghost before = r@;
            proof {
                assert(registry_key(all@[i as int]) == all@[i as int]);
                assert(all@.contains(k));
                assert(!all@.take(i as int).contains(k)) by {
                    if all@.take(i as int).contains(k) {
                        let j = choose|j: int| 0 <= j < i && all@.take(i as int)[j] == k;
                        assert(all@[j] == all@[i as int]);
                    }
                }
            }
            let rec = view_registry_get(self, k);
            let ghost chosen = view_entries(*self).contains_key(k) && view_entries(*self)[k].image == wanted;
            match rec {
                Some(v) => {
                    if v.image == wanted {
                        r.push(k);
                    }
                },
                None => {},
            }
            proof {
                assert(r@ == (if chosen { before.push(k) } else { before }));
                if chosen {
                    assert forall|a: int, b: int| 0 <= a < b < r@.len() implies r@[a] != r@[b] by {
                        if b == r@.len() - 1 {
                            assert(before.contains(r@[a]));
                        }
                    }
                }
                assert(all@.take(i + 1) =~= all@.take(i as int).push(k));
                assert forall|x: u64|
                    r@.contains(x) <==> all@.take(i + 1).contains(x) && view_entries(*self).contains_key(x)
                        && view_entries(*self)[x].image == wanted by {
                    if x == k {
                        assert(all@.take(i + 1)[i as int] == k);
                        if chosen {
                            assert(r@[r@.len() - 1] == k);
                        } else {
                            assert(!before.contains(k));
                        }
                    } else {
                        if r@.contains(x) {
                            if chosen {
                                let idx = choose|idx: int| 0 <= idx < r@.len() && r@[idx] == x;
                                assert(idx < before.len());
                                assert(before[idx] == x);
                            }
                            assert(before.contains(x));
                            assert(all@.take(i as int).push(k).contains(x));
                        }
                        if all@.take(i + 1).contains(x) && view_entries(*self).contains_key(x)
                            && view_entries(*self)[x].image == wanted {
                            assert(all@.take(i as int).push(k).contains(x));
                            let idx = choose|idx: int| 0 <= idx < i + 1 && all@.take(i as int).push(k)[idx] == x;
                            assert(idx < i);
                            assert(all@.take(i as int)[idx] == x);
                            assert(all@.take(i as int).contains(x));
                            assert(before.contains(x));
                            if chosen {
                                let j = choose|j: int| 0 <= j < before.len() && before[j] == x;
                                assert(r@[j] == x);
                            }
                        }
                    }
                }
            }
            i = i + 1;
        }
        proof {
            assert(all@.take(len as int) =~= all@);
        }
        r
    }
}

/// Where a view points: its image's raw handle and the view's subresources;
/// `None` when the view or its image is not registered.
pub open spec fn spec_view_target(
    images: Map<u64, ImageRecord>,
    views: Map<u64, ViewRecord>,
    view: ImageView,
) -> Option<(u64, ImageSubresources)> {
    match views.get(registry_key(view.id)) {
        Some(v) => match images.get(registry_key(v.image)) {
            Some(img) => Some((img.image, v.subresources)),
            None => None,
        },
        None => None,
    }
}

/// The full image memory barrier of `barrier`: its transition, the image and
/// subresources of its view, and ignored queue families; `None` when the
/// view or its image is not registered.
pub open spec fn spec_image_memory_barrier(
    images: Map<u64, ImageRecord>,
    views: Map<u64, ViewRecord>,
    barrier: ImageBarrier,
) -> Option<ImageMemoryBarrier> {
    match spec_view_target(images, views, barrier.view) {
        Some((image, subresources)) => Some(
            ImageMemoryBarrier {
                transition: spec_image_transition(
                    barrier.previous_accesses@,
                    barrier.next_accesses@,
                    barrier.previous_layout,
                    barrier.next_layout,
                    barrier.discard_contents,
                ),
                image,
                subresources,
                src_queue_family_index: QUEUE_FAMILY_IGNORED,
                dst_queue_family_index: QUEUE_FAMILY_IGNORED,
            },
        ),
        None => None,
    }
}

/// Registers an image with its memory, then its default view, and hands out
/// the image's handle: the raw image, its key and the default view's handle.
pub fn register_image(
    images: &mut ImageRegistry,
    views: &mut ViewRegistry,
    record: ImageRecord,
    allocation: Allocation,
    default_view: u64,
    subresources: ImageSubresources,
) -> (r: Image)
    requires
        image_entries(*old(images)).len() < MAX_REGISTERED,
        view_entries(*old(views)).len() < MAX_REGISTERED,
    ensures
        r.raw == record.image,
        !image_entries(*old(images)).contains_key(r.id),
        image_entries(*final(images)) == image_entries(*old(images)).insert(r.id, record),
        r.default_view.raw == default_view,
        !view_entries(*old(views)).contains_key(r.default_view.id),
        view_entries(*final(views)) == view_entries(*old(views)).insert(
            r.default_view.id,
            ViewRecord { view: default_view, image: r.id, subresources },
        ),
        registry_key(r.id) == r.id,
        registry_key(r.default_view.id) == r.default_view.id,
        r.id != NULL_RESOURCE_KEY,
        r.default_view.id != NULL_RESOURCE_KEY,
{
    let id = images.register(record, allocation);
    let view = views.register(ViewRecord { view: default_view, image: id, subresources });
    Image { raw: record.image, default_view: view, id }
}

/// Registers another view of a registered image and hands out its handle;
/// `None` (and no change) when the image is not registered.
pub fn add_view(
    images: &ImageRegistry,
    views: &mut ViewRegistry,
    image: &Image,
    view: u64,
    subresources: ImageSubresources,
) -> (r: Option<ImageView>)
    requires
        image_entries(*images).contains_key(registry_key(image.id)) ==> view_entries(*old(views)).len()
            < MAX_REGISTERED,
    ensures
        match r {
            Some(handle) => {
                &&& image_entries(*images).contains_key(registry_key(image.id))
                &&& handle.raw == view
                &&& !view_entries(*old(views)).contains_key(handle.id)
                &&& registry_key(handle.id) == handle.id
                &&& view_entries(*final(views)) == view_entries(*old(views)).insert(
                    handle.id,
                    ViewRecord { view, image: registry_key(image.id), subresources },
                )
            },
            None => {
                &&& !image_entries(*images).contains_key(registry_key(image.id))
                &&& view_entries(*final(views)) == view_entries(*old(views))
            },
        },
{
    match images.record(image.id) {
        Some(_) => {
            let key: u64 = image.id | 0x1_0000_0000;
            Some(views.register(ViewRecord { view, image: key, subresources }))
        },
        None => None,
    }
}

/// Where a view points: its image's raw handle and the view's subresources;
/// `None` when the view or its image is not registered.
pub fn view_target(images: &ImageRegistry, views: &ViewRegistry, view: &ImageView) -> (r: Option<(u64, ImageSubresources)>)
    ensures
        r == spec_view_target(image_entries(*images), view_entries(*views), *view),
{
    match views.record(view) {
        Some(v) => match images.record(v.image) {
            Some(img) => Some((img.image, v.subresources)),
            None => None,
        },
        None => None,
    }
}

/// The full image memory barrier of `barrier`: the masks and layouts of
/// `build_image_barrier`, the image and subresources its view points at,
/// and ignored queue families; `None` when the view or its image is not
/// registered.
pub fn image_memory_barrier(
    images: &ImageRegistry,
    views: &ViewRegistry,
    barrier: &ImageBarrier,
) -> (r: Option<ImageMemoryBarrier>)
    ensures
        r == spec_image_memory_barrier(image_entries(*images), view_entries(*views), *barrier),
{
    match view_target(images, views, &barrier.view) {
        Some((image, subresources)) => Some(
            ImageMemoryBarrier {
                transition: build_image_barrier(barrier),
                image,
                subresources,
                src_queue_family_index: QUEUE_FAMILY_IGNORED,
                dst_queue_family_index: QUEUE_FAMILY_IGNORED,
            },
        ),
        None => None,
    }
}

/// A registered buffer is found under the key it was handed out with, with
/// the record it was registered with; the lookup of any other key is as before.
pub proof fn law_registered_buffer_is_found(
    entries: Map<u64, BufferRecord>,
    id: u64,
    record: BufferRecord,
    other: u64,
)
    requires
        registry_key(id) == id,
    ensures
        entries.insert(id, record).get(registry_key(id)) == Some(record),
        registry_key(other) != id ==> entries.insert(id, record).get(registry_key(other))
            == entries.get(registry_key(other)),
{
}

/// Once a buffer is taken out it is no longer found, so taking it out again gives nothing.
pub proof fn law_unregistered_buffer_is_gone(entries: Map<u64, BufferRecord>, id: u64)
    ensures
        entries.remove(registry_key(id)).get(registry_key(id)) is None,
        !entries.remove(registry_key(id)).contains_key(registry_key(id)),
{
}

/// The default view of a newly registered image points at that image and the
/// default view's subresources.
pub proof fn law_default_view_points_at_image(
    images: Map<u64, ImageRecord>,
    views: Map<u64, ViewRecord>,
    image_id: u64,
    record: ImageRecord,
    view_id: u64,
    raw_view: u64,
    subresources: ImageSubresources,
)
    requires
        registry_key(image_id) == image_id,
        registry_key(view_id) == view_id,
    ensures
        spec_view_target(
            images.insert(image_id, record),
            views.insert(view_id, ViewRecord { view: raw_view, image: image_id, subresources }),
            ImageView { raw: raw_view, id: view_id },
        ) == Some((record.image, subresources)),
{
}

/// A view added to a registered image points at that image and the added
/// view's subresources, and every other view points where it did.
pub proof fn law_added_view_points_at_image(
    images: Map<u64, ImageRecord>,
    views: Map<u64, ViewRecord>,
    image: Image,
    handle: ImageView,
    subresources: ImageSubresources,
    other: ImageView,
)
    requires
        images.contains_key(registry_key(image.id)),
        registry_key(handle.id) == handle.id,
        registry_key(other.id) != handle.id,
    ensures
        spec_view_target(
            images,
            views.insert(
                handle.id,
                ViewRecord { view: handle.raw, image: registry_key(image.id), subresources },
            ),
            handle,
        ) == Some((images[registry_key(image.id)].image, subresources)),
        spec_view_target(
            images,
            views.insert(
                handle.id,
                ViewRecord { view: handle.raw, image: registry_key(image.id), subresources },
            ),
            other,
        ) == spec_view_target(images, views, other),
{
    lemma_registry_key_idempotent(image.id);
}

/// An image barrier on a live view carries the masks of a dependency over its
/// accesses, the layouts of its transition, the image and subresources the
/// view points at, and ignored queue families.
pub proof fn law_image_barrier_carries_view_target(
    images: Map<u64, ImageRecord>,
    views: Map<u64, ViewRecord>,
    barrier: ImageBarrier,
    image: u64,
    subresources: ImageSubresources,
)
    requires
        spec_view_target(images, views, barrier.view) == Some((image, subresources)),
    ensures
        spec_image_memory_barrier(images, views, barrier) is Some,
        spec_image_memory_barrier(images, views, barrier).unwrap().transition.masks
            == spec_fold_accesses(barrier.previous_accesses@, barrier.next_accesses@),
        spec_image_memory_barrier(images, views, barrier).unwrap().image == image,
        spec_image_memory_barrier(images, views, barrier).unwrap().subresources == subresources,
        spec_image_memory_barrier(images, views, barrier).unwrap().src_queue_family_index
            == QUEUE_FAMILY_IGNORED,
        spec_image_memory_barrier(images, views, barrier).unwrap().dst_queue_family_index
            == QUEUE_FAMILY_IGNORED,
{
}

/// Reading an id as a key twice is reading it once.
proof fn lemma_registry_key_idempotent(id: u64)
    ensures
        registry_key(registry_key(id)) == registry_key(id),
{
    assert((id | 0x1_0000_0000u64) | 0x1_0000_0000u64 == id | 0x1_0000_0000u64) by (bit_vector);
}

} // verus!
