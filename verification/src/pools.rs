//! Per-thread command pool rings and queue submission bookkeeping.
use vstd::prelude::*;

use crate::commands::{CommandBuffer, QueueType, SemaphoreWait};
use crate::types::{counter_value_of, Counter, COUNTER_VALUE_MASK};

verus! {

/// How many pools a ring starts with.
pub const INITIAL_POOLS_PER_RING: usize = 3;

/// How many command buffers a pool allocates when all it has are handed out.
pub const BUFFERS_PER_ALLOCATION: u32 = 8;

/// The values the three queue timelines had reached when last read.
#[derive(Clone, Copy, Debug, PartialEq, Eq, Structural)]
pub struct TimelineValues {
    pub graphics: u64,
    pub compute: u64,
    pub transfer: u64,
}

impl TimelineValues {
    pub open spec fn spec_get(self, queue: QueueType) -> u64 {
        match queue {
            QueueType::Graphics => self.graphics,
            QueueType::Compute => self.compute,
            QueueType::Transfer => self.transfer,
        }
    }

    /// The value the timeline of `queue` had reached.
    pub fn get(&self, queue: QueueType) -> (r: u64)
        ensures
            r == self.spec_get(queue),
    {
        match queue {
            QueueType::Graphics => self.graphics,
            QueueType::Compute => self.compute,
            QueueType::Transfer => self.transfer,
        }
    }
}

/// Whether the work a counter stands for is done: its queue's timeline has
/// reached its value.
pub open spec fn spec_is_signaled(counter: Counter, timelines: TimelineValues) -> bool {
    timelines.spec_get(counter.queue()) >= counter.value()
}

/// Whether the counter has already been signalled, judged from the timeline
/// values read from the device. Does not wait.
pub fn poll(counter: Counter, timelines: &TimelineValues) -> (r: bool)
    ensures
        r == spec_is_signaled(counter, *timelines),
{
    let (queue, value) = counter.decode();
    timelines.get(queue) >= value
}

/// Once the work a counter stands for is done it stays done: timelines only grow.
pub proof fn law_signaled_stays_signaled(counter: Counter, earlier: TimelineValues, later: TimelineValues)
    requires
        earlier.graphics <= later.graphics,
        earlier.compute <= later.compute,
        earlier.transfer <= later.transfer,
        spec_is_signaled(counter, earlier),
    ensures
        spec_is_signaled(counter, later),
{
}

/// A submission's next signal value on a queue's timeline and the counter that
/// stands for it. The timeline value grows by one per submission.
pub fn next_signal(queue: QueueType, signaled: &mut u64) -> (r: Counter)
    requires
        *old(signaled) < u64::MAX,
    ensures
        *final(signaled) == *old(signaled) + 1,
        r.queue() == queue,
        r.value() == counter_value_of(*final(signaled)),
{
    *signaled = *signaled + 1;
    Counter::encode(queue, *signaled)
}

/// Each submission on a queue signals a value one above the last, so while
/// the values fit in 56 bits the counters of successive submissions grow.
pub proof fn law_successive_signals_grow(signaled: u64)
    requires
        signaled + 1 <= COUNTER_VALUE_MASK,
    ensures
        counter_value_of(signaled) < counter_value_of((signaled + 1) as u64),
        counter_value_of((signaled + 1) as u64) == signaled + 1,
{
}

/// All waits of the command buffers, buffer after buffer, each in its own order.
pub open spec fn all_waits(cmds: Seq<CommandBuffer>) -> Seq<SemaphoreWait>
    decreases cmds.len(),
{
    if cmds.len() == 0 {
        Seq::empty()
    } else {
        all_waits(cmds.drop_last()) + cmds.last().spec_waits()
    }
}

/// What one queue submission holds: the waits of all its command buffers and
/// the command buffers' raw handles, in order.
pub struct SubmitPlan {
    pub waits: Vec<SemaphoreWait>,
    pub command_buffers: Vec<u64>,
}

/// Gathers the waits and handles of the command buffers of one submission.
pub fn plan_submit(command_buffers: &[CommandBuffer]) -> (r: SubmitPlan)
    ensures
        r.waits@ == all_waits(command_buffers@),
        r.command_buffers@.len() == command_buffers@.len(),
        forall|i: int|
            0 <= i < command_buffers@.len() ==> r.command_buffers@[i]
                == #[trigger] command_buffers@[i].spec_handle(),
{
    let mut waits: Vec<SemaphoreWait> = Vec::new();
    let mut handles: Vec<u64> = Vec::new();
    let len = command_buffers.len();
    let mut i: usize = 0;
    while i < len
        invariant
            len == command_buffers@.len(),
            i <= len,
            waits@ == all_waits(command_buffers@.take(i as int)),
            handles@.len() == i,
            forall|j: int| 0 <= j < i ==> handles@[j] == #[trigger] command_buffers@[j].spec_handle(),
        decreases len - i,
    {
        let cmd = &command_buffers[i];
        let cmd_waits = cmd.waits();
        proof {
            assert(command_buffers@.take(i + 1).drop_last() =~= command_buffers@.take(i as int));
            assert(command_buffers@.take(i + 1).last() == command_buffers@[i as int]);
        }
        let ghost before = waits@;
        let n = cmd_waits.len();
        let mut k: usize = 0;
        while k < n
            invariant
                n == cmd_waits@.len(),
                k <= n,
                waits@ == before + cmd_waits@.take(k as int),
            decreases n - k,
        {
            waits.push(cmd_waits[k]);
            proof {
                assert(cmd_waits@.take(k + 1) =~= cmd_waits@.take(k as int).push(cmd_waits@[k as int]));
            }
            k = k + 1;
        }
        proof {
            assert(cmd_waits@.take(n as int) =~= cmd_waits@);
        }
        handles.push(cmd.handle());
        i = i + 1;
    }
    proof {
        assert(command_buffers@.take(len as int) =~= command_buffers@);
    }
    SubmitPlan { waits, command_buffers: handles }
}

/// Whether all command buffers belong to `queue`.
pub open spec fn all_on_queue(cmds: Seq<CommandBuffer>, queue: QueueType) -> bool {
    forall|i: int| 0 <= i < cmds.len() ==> #[trigger] cmds[i].spec_queue() == queue
}

/// The queue a batch of command buffers is submitted to: that of the first one.
/// All must belong to it.
pub fn submission_queue(command_buffers: &[CommandBuffer]) -> (r: QueueType)
    requires
        command_buffers@.len() > 0,
        all_on_queue(command_buffers@, command_buffers@[0].spec_queue()),
    ensures
        r == command_buffers@[0].spec_queue(),
        all_on_queue(command_buffers@, r),
{
    command_buffers[0].queue()
}

/// What a command pool is: its raw `VkCommandPool`, the raw command buffers
/// allocated from it, how many of them are handed out since its last reset,
/// and the counter of its last submission since then.
pub ghost struct PoolView {
    pub pool: u64,
    pub buffers: Seq<u64>,
    pub in_flight: nat,
    pub last_signal: Option<Counter>,
}

impl PoolView {
    /// A pool can be used again when it was submitted and that work is done,
    /// or when nothing was handed out from it.
    pub open spec fn is_free(self, timelines: TimelineValues) -> bool {
        match self.last_signal {
            None => self.in_flight == 0,
            Some(c) => spec_is_signaled(c, timelines),
        }
    }

    /// The pool after a reset: no buffer handed out, no submission pending.
    pub open spec fn reset(self) -> PoolView {
        PoolView { in_flight: 0, last_signal: None, ..self }
    }

    /// The pool after its work was submitted with `counter`.
    pub open spec fn submitted(self, counter: Counter) -> PoolView {
        PoolView { last_signal: Some(counter), ..self }
    }

    /// A fresh pool with no buffer.
    pub open spec fn fresh(pool: u64) -> PoolView {
        PoolView { pool, buffers: Seq::empty(), in_flight: 0, last_signal: None }
    }
}

/// What a ring is: where the next search for a free pool starts, its pools,
/// and the queue its pools record for.
pub ghost struct RingView {
    pub head: nat,
    pub pools: Seq<PoolView>,
    pub queue: QueueType,
}

impl RingView {
    /// The pool at offset `k` from the head, going round (for `0 <= k < len`).
    pub open spec fn at_offset(self, k: int) -> int {
        if self.head + k < self.pools.len() {
            self.head + k
        } else {
            self.head + k - self.pools.len()
        }
    }
}

struct CommandPool {
    pool: u64,
    buffers: Vec<u64>,
    in_flight: usize,
    last_signal: Option<Counter>,
}

impl CommandPool {
    spec fn view_of(self) -> PoolView {
        PoolView {
            pool: self.pool,
            buffers: self.buffers@,
            in_flight: self.in_flight as nat,
            last_signal: self.last_signal,
        }
    }

    fn is_free(&self, timelines: &TimelineValues) -> (r: bool)
        ensures
            r == self.view_of().is_free(*timelines),
    {
        match self.last_signal {
            None => self.in_flight == 0,
            Some(c) => poll(c, timelines),
        }
    }
}

/// The command pools of one queue on one thread. A pool hands out its command
/// buffers one by one; once submitted it waits until its work is done, is
/// reset, and is used again. A new pool is added only when none is free.
pub struct CommandPoolRing {
    head: usize,
    pools: Vec<CommandPool>,
    queue_type: QueueType,
}

impl View for CommandPoolRing {
    type V = RingView;

    closed spec fn view(&self) -> RingView {
        RingView {
            head: self.head as nat,
            pools: self.pools@.map_values(|p: CommandPool| p.view_of()),
            queue: self.queue_type,
        }
    }
}

impl CommandPoolRing {
    /// The ring's bookkeeping is consistent: the head names a pool, and no pool
    /// has handed out more buffers than it holds.
    pub closed spec fn wf(&self) -> bool {
        &&& (self.pools.len() == 0 ==> self.head == 0)
        &&& (self.pools.len() > 0 ==> self.head < self.pools.len())
        &&& forall|i: int|
            0 <= i < self.pools.len() ==> #[trigger] self.pools@[i].in_flight
                <= self.pools@[i].buffers.len()
    }

    /// A ring over the given raw pools, all fresh, searched from the first.
    pub fn new(queue_type: QueueType, pools: Vec<u64>) -> (r: CommandPoolRing)
        ensures
            r.wf(),
            r@.head == 0,
            r@.queue == queue_type,
            r@.pools == pools@.map_values(|p: u64| PoolView::fresh(p)),
    {
        let mut ring: Vec<CommandPool> = Vec::new();
        let len = pools.len();
        let mut i: usize = 0;
        while i < len
            invariant
                len == pools@.len(),
                i <= len,
                ring@.len() == i,
                forall|j: int|
                    0 <= j < i ==> (#[trigger] ring@[j]).view_of() == PoolView::fresh(pools@[j]),
            decreases len - i,
        {
            ring.push(CommandPool { pool: pools[i], buffers: Vec::new(), in_flight: 0, last_signal: None });
            i = i + 1;
        }
        let r = CommandPoolRing { head: 0, pools: ring, queue_type };
        proof {
            assert(r@.pools =~= pools@.map_values(|p: u64| PoolView::fresh(p)));
        }
        r
    }

    /// The number of pools.
    pub fn len(&self) -> (r: usize)
        ensures
            r == self@.pools.len(),
    {
        self.pools.len()
    }

    /// The queue the ring's pools record for.
    pub fn queue_type(&self) -> (r: QueueType)
        ensures
            r == self@.queue,
    {
        self.queue_type
    }

    /// The raw `VkCommandPool` of pool `idx`.
    pub fn pool(&self, idx: usize) -> (r: u64)
        requires
            self.wf(),
            idx < self@.pools.len(),
        ensures
            r == self@.pools[idx as int].pool,
    {
        self.pools[idx].pool
    }

    /// The first free pool, going round from the head; `None` when no pool is free.
    pub fn select(&self, timelines: &TimelineValues) -> (r: Option<usize>)
        requires
            self.wf(),
        ensures
            match r {
                Some(idx) => {
                    &&& idx < self@.pools.len()
                    &&& self@.pools[idx as int].is_free(*timelines)
                    &&& exists|k: int|
                        0 <= k < self@.pools.len() && self@.at_offset(k) == idx && forall|j: int|
                            0 <= j < k ==> !#[trigger] self@.pools[self@.at_offset(j)].is_free(
                                *timelines,
                            )
                },
                None => forall|i: int|
                    0 <= i < self@.pools.len() ==> !#[trigger] self@.pools[i].is_free(*timelines),
            },
    {
        let len = self.pools.len();
        let mut k: usize = 0;
        while k < len
            invariant
                len == self.pools@.len(),
                len == self@.pools.len(),
                k <= len,
                len > 0 ==> self.head < len,
                self@.head == self.head,
                forall|j: int|
                    0 <= j < k ==> !#[trigger] self@.pools[self@.at_offset(j)].is_free(*timelines),
            decreases len - k,
        {
            let idx = if k < len - self.head {
                self.head + k
            } else {
                k - (len - self.head)
            };
            proof {
                assert(self@.at_offset(k as int) == idx);
                assert(self@.pools[idx as int] == self.pools@[idx as int].view_of());
            }
            if self.pools[idx].is_free(timelines) {
                return Some(idx);
            }
            k = k + 1;
        }
        proof {
            assert forall|i: int| 0 <= i < self@.pools.len() implies !#[trigger] self@.pools[i].is_free(
                *timelines,
            ) by {
                let k = if i >= self.head { i - self.head } else { i + len - self.head };
                assert(0 <= k < len);
                assert(self@.at_offset(k) == i);
            }
        }
        None
    }

    /// Starts using pool `idx`: it becomes the head, and if it was submitted it
    /// is reset. Returns whether it was reset, so that the caller resets the
    /// Vulkan pool too.
    pub fn begin_use(&mut self, idx: usize) -> (reset: bool)
        requires
            old(self).wf(),
            idx < old(self)@.pools.len(),
        ensures
            final(self).wf(),
            reset == old(self)@.pools[idx as int].last_signal.is_some(),
            final(self)@.head == idx,
            final(self)@.queue == old(self)@.queue,
            final(self)@.pools == old(self)@.pools.update(
                idx as int,
                if reset {
                    old(self)@.pools[idx as int].reset()
                } else {
                    old(self)@.pools[idx as int]
                },
            ),
    {
        let reset = self.pools[idx].last_signal.is_some();
        if reset {
            self.pools[idx].in_flight = 0;
            self.pools[idx].last_signal = None;
        }
        self.head = idx;
        proof {
            assert(self@.pools =~= old(self)@.pools.update(
                idx as int,
                if reset {
                    old(self)@.pools[idx as int].reset()
                } else {
                    old(self)@.pools[idx as int]
                },
            ));
        }
        reset
    }

    /// Adds a fresh pool at the end and returns its index; the head stays.
    pub fn push_pool(&mut self, pool: u64) -> (r: usize)
        requires
            old(self).wf(),
            old(self)@.pools.len() < usize::MAX,
        ensures
            final(self).wf(),
            r == old(self)@.pools.len(),
            final(self)@.head == old(self)@.head,
            final(self)@.queue == old(self)@.queue,
            final(self)@.pools == old(self)@.pools.push(PoolView::fresh(pool)),
    {
        let mut pools: Vec<CommandPool> = Vec::new();
        std::mem::swap(&mut pools, &mut self.pools);
        pools.push(CommandPool { pool, buffers: Vec::new(), in_flight: 0, last_signal: None });
        std::mem::swap(&mut pools, &mut self.pools);
        proof {
            assert(self@.pools =~= old(self)@.pools.push(PoolView::fresh(pool)));
        }
        self.pools.len() - 1
    }

    /// Whether every buffer of pool `idx` is handed out, so that more must be allocated.
    pub fn needs_buffers(&self, idx: usize) -> (r: bool)
        requires
            self.wf(),
            idx < self@.pools.len(),
        ensures
            r == (self@.pools[idx as int].in_flight == self@.pools[idx as int].buffers.len()),
            self@.pools[idx as int].in_flight <= self@.pools[idx as int].buffers.len(),
    {
        proof {
            assert(self@.pools[idx as int] == self.pools@[idx as int].view_of());
        }
        self.pools[idx].in_flight == self.pools[idx].buffers.len()
    }

    /// Adds newly allocated raw command buffers to pool `idx`.
    pub fn add_buffers(&mut self, idx: usize, new_buffers: Vec<u64>)
        requires
            old(self).wf(),
            idx < old(self)@.pools.len(),
        ensures
            final(self).wf(),
            final(self)@.head == old(self)@.head,
            final(self)@.queue == old(self)@.queue,
            final(self)@.pools == old(self)@.pools.update(
                idx as int,
                PoolView {
                    buffers: old(self)@.pools[idx as int].buffers + new_buffers@,
                    ..old(self)@.pools[idx as int]
                },
            ),
    {
        let mut pools: Vec<CommandPool> = Vec::new();
        std::mem::swap(&mut pools, &mut self.pools);
        let mut i: usize = 0;
        let n = new_buffers.len();
        let ghost before = pools@[idx as int].buffers@;
        while i < n
            invariant
                n == new_buffers@.len(),
                i <= n,
                idx < pools@.len(),
                pools@.len() == old(self).pools@.len(),
                pools@[idx as int].buffers@ == before + new_buffers@.take(i as int),
                before == old(self).pools@[idx as int].buffers@,
                pools@[idx as int].pool == old(self).pools@[idx as int].pool,
                pools@[idx as int].in_flight == old(self).pools@[idx as int].in_flight,
                pools@[idx as int].last_signal == old(self).pools@[idx as int].last_signal,
                forall|j: int|
                    0 <= j < pools@.len() && j != idx ==> #[trigger] pools@[j] == old(self).pools@[j],
            decreases n - i,
        {
            pools[idx].buffers.push(new_buffers[i]);
            proof {
                assert(new_buffers@.take(i + 1) =~= new_buffers@.take(i as int).push(new_buffers@[i as int]));
            }
            i = i + 1;
        }
        proof {
            assert(pools@[idx as int].in_flight <= pools@[idx as int].buffers.len());
        }
        std::mem::swap(&mut pools, &mut self.pools);
        proof {
            assert(new_buffers@.take(n as int) =~= new_buffers@);
            assert(self@.pools =~= old(self)@.pools.update(
                idx as int,
                PoolView {
                    buffers: old(self)@.pools[idx as int].buffers + new_buffers@,
                    ..old(self)@.pools[idx as int]
                },
            ));
        }
    }

    /// Hands out the next unused command buffer of pool `idx`.
    pub fn take_buffer(&mut self, idx: usize) -> (r: u64)
        requires
            old(self).wf(),
            idx < old(self)@.pools.len(),
            old(self)@.pools[idx as int].in_flight < old(self)@.pools[idx as int].buffers.len(),
        ensures
            final(self).wf(),
            r == old(self)@.pools[idx as int].buffers[old(self)@.pools[idx as int].in_flight as int],
            final(self)@.head == old(self)@.head,
            final(self)@.queue == old(self)@.queue,
            final(self)@.pools == old(self)@.pools.update(
                idx as int,
                PoolView {
                    in_flight: old(self)@.pools[idx as int].in_flight + 1,
                    ..old(self)@.pools[idx as int]
                },
            ),
    {
        let n = self.pools[idx].in_flight;
        let buf = self.pools[idx].buffers[n];
        self.pools[idx].in_flight = n + 1;
        proof {
            assert(self@.pools =~= old(self)@.pools.update(
                idx as int,
                PoolView {
                    in_flight: old(self)@.pools[idx as int].in_flight + 1,
                    ..old(self)@.pools[idx as int]
                },
            ));
        }
        buf
    }

    /// Records that the work recorded from pool `idx` was submitted and is
    /// done when `counter` is signalled.
    pub fn mark_submitted(&mut self, idx: usize, counter: Counter)
        requires
            old(self).wf(),
            idx < old(self)@.pools.len(),
        ensures
            final(self).wf(),
            final(self)@.head == old(self)@.head,
            final(self)@.queue == old(self)@.queue,
            final(self)@.pools == old(self)@.pools.update(
                idx as int,
                old(self)@.pools[idx as int].submitted(counter),
            ),
    {
        self.pools[idx].last_signal = Some(counter);
        proof {
            assert(self@.pools =~= old(self)@.pools.update(
                idx as int,
                old(self)@.pools[idx as int].submitted(counter),
            ));
        }
    }
}

/// The pool a recording uses.
#[derive(Clone, Copy, Debug, PartialEq, Eq, Structural)]
pub enum PoolChoice {
    /// A free pool of the ring; `reset` says whether it was reset, so that the
    /// caller resets the Vulkan pool too.
    Existing { idx: usize, reset: bool },
    /// No pool is free: the caller creates one and adds it with `push_pool`.
    NeedsNewPool,
}

impl CommandPoolRing {
    /// Picks the pool for a new recording: the first free pool going round
    /// from the head, which becomes the head and is reset if it was submitted.
    /// When no pool is free the ring is left as it is.
    pub fn acquire_pool(&mut self, timelines: &TimelineValues) -> (r: PoolChoice)
        requires
            old(self).wf(),
        ensures
            final(self).wf(),
            final(self)@.queue == old(self)@.queue,
            match r {
                PoolChoice::Existing { idx, reset } => {
                    &&& idx < old(self)@.pools.len()
                    &&& old(self)@.pools[idx as int].is_free(*timelines)
                    &&& exists|k: int|
                        0 <= k < old(self)@.pools.len() && old(self)@.at_offset(k) == idx
                            && forall|j: int|
                            0 <= j < k ==> !#[trigger] old(self)@.pools[old(self)@.at_offset(
                                j,
                            )].is_free(*timelines)
                    &&& reset == old(self)@.pools[idx as int].last_signal.is_some()
                    &&& final(self)@.head == idx
                    &&& final(self)@.pools == old(self)@.pools.update(
                        idx as int,
                        if reset {
                            old(self)@.pools[idx as int].reset()
                        } else {
                            old(self)@.pools[idx as int]
                        },
                    )
                },
                PoolChoice::NeedsNewPool => {
                    &&& final(self)@ == old(self)@
                    &&& forall|i: int|
                        0 <= i < old(self)@.pools.len() ==> !#[trigger] old(self)@.pools[i].is_free(
                            *timelines,
                        )
                },
            },
    {
        match self.select(timelines) {
            Some(idx) => {
                let reset = self.begin_use(idx);
                PoolChoice::Existing { idx, reset }
            },
            None => PoolChoice::NeedsNewPool,
        }
    }
}

/// A pool with command buffers handed out but not yet submitted is never free,
/// whatever the timelines: its buffers are not handed out twice.
pub proof fn law_pool_in_use_is_not_free(pool: PoolView, timelines: TimelineValues)
    requires
        pool.last_signal is None,
        pool.in_flight > 0,
    ensures
        !pool.is_free(timelines),
{
}

/// A submitted pool is free again exactly when its submission's counter is signalled.
pub proof fn law_submitted_pool_free_when_signaled(
    pool: PoolView,
    counter: Counter,
    timelines: TimelineValues,
)
    ensures
        pool.submitted(counter).is_free(timelines) == spec_is_signaled(counter, timelines),
{
}

/// A reset pool is free and hands out its buffers from the first again.
pub proof fn law_reset_pool_is_free(pool: PoolView, timelines: TimelineValues)
    ensures
        pool.reset().is_free(timelines),
        pool.reset().in_flight == 0,
        pool.reset().buffers == pool.buffers,
{
}

} // verus!
