//! Command pools and command buffers with their recording state, and the
//! replies of semaphore and fence calls.
//!
//! A command buffer is idle or recording. The buffers that are recording
//! are tracked as (kind, index) entries: `begin` adds the entry, `end`
//! removes it, `reset` removes it whatever the state.
use vstd::prelude::*;
use crate::logical_device::VulkanLogicalDevice;
use crate::vulkan_bindings::{
    VkBool32, VkBufferUsageFlagBits, VkCommandBuffer, VkCommandBufferAllocateInfo,
    VkCommandBufferBeginInfo, VkCommandBufferLevel,
    VkCommandBufferLevel_VK_COMMAND_BUFFER_LEVEL_PRIMARY,
    VkCommandBufferLevel_VK_COMMAND_BUFFER_LEVEL_SECONDARY,
    VkCommandBufferResetFlagBits_VK_COMMAND_BUFFER_RESET_RELEASE_RESOURCES_BIT, VkCommandPool,
    VkCommandPoolCreateFlagBits_VK_COMMAND_POOL_CREATE_RESET_COMMAND_BUFFER_BIT,
    VkCommandPoolCreateFlagBits_VK_COMMAND_POOL_CREATE_TRANSIENT_BIT, VkCommandPoolCreateInfo,
    VkCommandPoolResetFlagBits_VK_COMMAND_POOL_RESET_RELEASE_RESOURCES_BIT, VkDevice, VkFence,
    VkFlags, VkPipelineStageFlags, VkQueue, VkResult, VkResult_VK_SUCCESS, VkSemaphore,
};

verus! {

/// What can go wrong with command recording and synchronization.
#[derive(Clone, Copy, Debug, PartialEq, Eq, Structural)]
pub enum VulkanSynchroError {
    COULDNT_CREATE_CMD_POOL,
    COULDNT_CREATE_CMD_BUFFER,
    FAILED_STARTING_PRIMARY_BUFFER_RECORDING,
    FAILED_STARTING_SECONDARY_BUFFER_RECORDING,
    FAILED_ENDING_PRIMARY_BUFFER_RECORDING,
    FAILED_RESETING_PRIMARY_BUFFER,
    FAILED_RESETING_POOL,
    FAILED_CREATING_SEMAPHORE,
    FAILED_CREATING_FENCE,
    COULDNT_WAIT_FOR_FENCES,
    COULDNT_RESET_FENCES,
    FAILED_SUBMITING_BUFFERS,
}

impl VulkanSynchroError {
    /// The text that reports the error.
    pub open spec fn message(self) -> Seq<char> {
        match self {
            VulkanSynchroError::COULDNT_CREATE_CMD_POOL => "Couldnt create a Command pool"@,
            VulkanSynchroError::COULDNT_CREATE_CMD_BUFFER => "Couldn't create a Command Buffer"@,
            VulkanSynchroError::FAILED_STARTING_PRIMARY_BUFFER_RECORDING =>
                "Failed Starting primary buffer recording"@,
            VulkanSynchroError::FAILED_STARTING_SECONDARY_BUFFER_RECORDING =>
                "Failed Starting secondary buffer recording"@,
            VulkanSynchroError::FAILED_ENDING_PRIMARY_BUFFER_RECORDING =>
                "Failed Closing primary buffer recording"@,
            VulkanSynchroError::FAILED_RESETING_PRIMARY_BUFFER =>
                "Failed resetting primary buffer"@,
            VulkanSynchroError::FAILED_RESETING_POOL => "Failed resetting pool"@,
            VulkanSynchroError::FAILED_CREATING_SEMAPHORE => "Failed creating semaphore"@,
            VulkanSynchroError::FAILED_CREATING_FENCE => "Failed creating fence"@,
            VulkanSynchroError::COULDNT_WAIT_FOR_FENCES => "Couldnt wait for fences"@,
            VulkanSynchroError::COULDNT_RESET_FENCES => "Couldn't reset fences"@,
            VulkanSynchroError::FAILED_SUBMITING_BUFFERS => "Failed Submiting buffers"@,
        }
    }

    /// The text that reports the error.
    pub fn to_string(&self) -> (text: String)
        ensures
            text@ == self.message(),
    {
        match self {
            VulkanSynchroError::COULDNT_CREATE_CMD_POOL => String::from_str(
                "Couldnt create a Command pool",
            ),
            VulkanSynchroError::COULDNT_CREATE_CMD_BUFFER => String::from_str(
                "Couldn't create a Command Buffer",
            ),
            VulkanSynchroError::FAILED_STARTING_PRIMARY_BUFFER_RECORDING => String::from_str(
                "Failed Starting primary buffer recording",
            ),
            VulkanSynchroError::FAILED_STARTING_SECONDARY_BUFFER_RECORDING => String::from_str(
                "Failed Starting secondary buffer recording",
            ),
            VulkanSynchroError::FAILED_ENDING_PRIMARY_BUFFER_RECORDING => String::from_str(
                "Failed Closing primary buffer recording",
            ),
            VulkanSynchroError::FAILED_RESETING_PRIMARY_BUFFER => String::from_str(
                "Failed resetting primary buffer",
            ),
            VulkanSynchroError::FAILED_RESETING_POOL => String::from_str("Failed resetting pool"),
            VulkanSynchroError::FAILED_CREATING_SEMAPHORE => String::from_str(
                "Failed creating semaphore",
            ),
            VulkanSynchroError::FAILED_CREATING_FENCE => String::from_str("Failed creating fence"),
            VulkanSynchroError::COULDNT_WAIT_FOR_FENCES => String::from_str(
                "Couldnt wait for fences",
            ),
            VulkanSynchroError::COULDNT_RESET_FENCES => String::from_str("Couldn't reset fences"),
            VulkanSynchroError::FAILED_SUBMITING_BUFFERS => String::from_str(
                "Failed Submiting buffers",
            ),
        }
    }
}

/// The two kinds of command buffers.
#[derive(Clone, Copy, Debug, PartialEq, Eq, Structural)]
pub enum VulkanBufferType {
    PRIMARY,
    SECONDARY,
}

/// A buffer that is recording: its kind and its index.
pub type StartedBuffer = (VulkanBufferType, usize);

/// The recording set after `begin` on an entry: the entry is in it once,
/// whether it was there before or not.
pub open spec fn begun(started: Seq<StartedBuffer>, entry: StartedBuffer) -> Seq<StartedBuffer> {
    if started.contains(entry) {
        started
    } else {
        started.push(entry)
    }
}

/// Position `p` holds the first occurrence of `entry`.
pub open spec fn is_first_position(
    started: Seq<StartedBuffer>,
    entry: StartedBuffer,
    p: int,
) -> bool {
    &&& 0 <= p < started.len()
    &&& started[p] == entry
    &&& forall|q: int| 0 <= q < p ==> started[q] != entry
}

/// The recording set without any occurrence of `entry`, the other entries
/// in their order.
pub open spec fn without(started: Seq<StartedBuffer>, entry: StartedBuffer) -> Seq<StartedBuffer>
    decreases started.len(),
{
    if started.len() == 0 {
        Seq::empty()
    } else if started.last() == entry {
        without(started.drop_last(), entry)
    } else {
        without(started.drop_last(), entry).push(started.last())
    }
}

/// `entry` occurs exactly once in `started`.
pub open spec fn occurs_once(started: Seq<StartedBuffer>, entry: StartedBuffer) -> bool {
    exists|p: int|
        0 <= p < started.len() && #[trigger] started[p] == entry && forall|q: int|
            0 <= q < started.len() && started[q] == entry ==> q == p
}

/// What `without` leaves: the entries that were there and are not the
/// removed one.
pub proof fn lemma_without_contains(
    started: Seq<StartedBuffer>,
    entry: StartedBuffer,
    other: StartedBuffer,
)
    ensures
        without(started, entry).contains(other) <==> (other != entry && started.contains(other)),
    decreases started.len(),
{
    let result = without(started, entry);
    if started.len() > 0 {
        let shorter = started.drop_last();
        let last = started.last();
        let kept = without(shorter, entry);
        lemma_without_contains(shorter, entry, other);
        if result.contains(other) {
            let p = choose|p: int| 0 <= p < result.len() && result[p] == other;
            if p < kept.len() {
                assert(kept[p] == other);
                assert(kept.contains(other));
                let q = choose|q: int| 0 <= q < shorter.len() && shorter[q] == other;
                assert(started[q] == other);
            } else {
                assert(last == other);
                assert(started[started.len() - 1] == other);
            }
            assert(started.contains(other));
        }
        if other != entry && started.contains(other) {
            let q = choose|q: int| 0 <= q < started.len() && started[q] == other;
            if q < shorter.len() {
                assert(shorter[q] == other);
                assert(shorter.contains(other));
                let p = choose|p: int| 0 <= p < kept.len() && kept[p] == other;
                assert(result[p] == other);
            } else {
                assert(last == other);
                assert(result[result.len() - 1] == other);
            }
            assert(result.contains(other));
        }
    } else {
        if started.contains(other) {
            let q = choose|q: int| 0 <= q < started.len() && started[q] == other;
        }
        if result.contains(other) {
            let q = choose|q: int| 0 <= q < result.len() && result[q] == other;
        }
    }
}

/// Removing an entry that is not there changes nothing.
pub proof fn lemma_without_absent(started: Seq<StartedBuffer>, entry: StartedBuffer)
    requires
        !started.contains(entry),
    ensures
        without(started, entry) == started,
    decreases started.len(),
{
    if started.len() > 0 {
        let shorter = started.drop_last();
        if shorter.contains(entry) {
            let q = choose|q: int| 0 <= q < shorter.len() && shorter[q] == entry;
            assert(started[q] == entry);
        }
        assert(started[started.len() - 1] != entry);
        lemma_without_absent(shorter, entry);
        assert(without(started, entry) =~= started);
    } else {
        assert(without(started, entry) =~= started);
    }
}

/// Removing an entry from a set without duplicates leaves no duplicates.
pub proof fn lemma_without_no_duplicates(started: Seq<StartedBuffer>, entry: StartedBuffer)
    requires
        started.no_duplicates(),
    ensures
        without(started, entry).no_duplicates(),
    decreases started.len(),
{
    if started.len() > 0 {
        let shorter = started.drop_last();
        let last = started.last();
        let kept = without(shorter, entry);
        let result = without(started, entry);
        assert(shorter.no_duplicates());
        lemma_without_no_duplicates(shorter, entry);
        if last != entry {
            lemma_without_contains(shorter, entry, last);
            if kept.contains(last) {
                let q = choose|q: int| 0 <= q < shorter.len() && shorter[q] == last;
                assert(started[q] == started[started.len() - 1]);
            }
            assert forall|i: int, j: int|
                0 <= i < result.len() && 0 <= j < result.len() && i != j implies result[i]
                != result[j] by {
                if i == kept.len() {
                    if kept[j] == last {
                        assert(kept.contains(last));
                    }
                } else if j == kept.len() {
                    if kept[i] == last {
                        assert(kept.contains(last));
                    }
                }
            }
        }
    }
}

/// Beginning a buffer twice with nothing in between leaves its entry in
/// the recording set exactly once, as beginning it once does.
pub proof fn lemma_begin_twice(started: Seq<StartedBuffer>, entry: StartedBuffer)
    requires
        started.no_duplicates(),
    ensures
        begun(begun(started, entry), entry) == begun(started, entry),
        occurs_once(begun(begun(started, entry), entry), entry),
        begun(started, entry).no_duplicates(),
{
    let once = begun(started, entry);
    if started.contains(entry) {
        let p = choose|p: int| 0 <= p < started.len() && started[p] == entry;
        assert(once[p] == entry);
    } else {
        let p = started.len() as int;
        assert(once[p] == entry);
        assert(once.contains(entry));
        assert forall|q: int| 0 <= q < once.len() && once[q] == entry implies q == p by {
            if q < p {
                assert(started[q] == entry);
                assert(started.contains(entry));
            }
        }
        assert forall|i: int, j: int|
            0 <= i < once.len() && 0 <= j < once.len() && i != j implies once[i] != once[j] by {
            if i == p {
                if once[j] == entry {
                    assert(started[j] == entry);
                    assert(started.contains(entry));
                }
            } else if j == p {
                if once[i] == entry {
                    assert(started[i] == entry);
                    assert(started.contains(entry));
                }
            }
        }
    }
}

/// After a reset the recording set holds no entry for the buffer, whether
/// it held one before or not.
pub proof fn lemma_reset_removes(started: Seq<StartedBuffer>, entry: StartedBuffer)
    ensures
        !without(started, entry).contains(entry),
        !without(begun(started, entry), entry).contains(entry),
{
    lemma_without_contains(started, entry, entry);
    lemma_without_contains(begun(started, entry), entry, entry);
}

/// The reply of a command buffer allocation.
#[derive(Debug)]
pub struct CommandBufferAllocation {
    pub result: VkResult,
    /// The handles that were written, one for each buffer asked for.
    pub buffers: Vec<VkCommandBuffer>,
}

/// The semaphores that a submission waits on, each with the pipeline
/// stage that waits.
#[derive(Debug)]
pub struct VulkanWaitSemaphoresInfo {
    pub semaphores: Vec<VkSemaphore>,
    pub waiting_stage: Vec<VkPipelineStageFlags>,
}

/// What a submission hands to the queue. The command buffers are the
/// primary buffers of the pool's buffer set, the wait semaphores and
/// stages those of the wait list it was built from.
#[derive(Clone, Copy, Debug, PartialEq, Eq, Structural)]
pub struct VkSubmitInfo {
    pub waitSemaphoreCount: u32,
    pub commandBufferCount: u32,
    pub signalSemaphoreCount: u32,
    /// The one semaphore that the submission signals.
    pub signalSemaphore: VkSemaphore,
}

/// A set of command buffers allocated from one pool.
#[derive(Debug)]
pub struct VulkanCmdBuffer {
    pub cmd_pool: VkCommandPool,
    pub logical_device: VkDevice,
    pub primary_buffers: Vec<VkCommandBuffer>,
    pub secondary_buffers: Vec<VkCommandBuffer>,
    /// The buffers that are recording.
    pub started_buffers: Vec<StartedBuffer>,
}

/// A command pool and the buffer set allocated from it, if any.
#[derive(Debug)]
pub struct VulkanCmdPool {
    pub cmd_pool_handle: VkCommandPool,
    pub logical_device: VkDevice,
    pub cmd_buffers: Option<VulkanCmdBuffer>,
}

/// Tells whether an entry is in a recording set.
pub fn is_started(started: &Vec<StartedBuffer>, kind: VulkanBufferType, index: usize) -> (found:
    Option<usize>)
    ensures
        found is Some <==> started@.contains((kind, index)),
        found matches Some(p) ==> is_first_position(started@, (kind, index), p as int),
{
    let mut i: usize = 0;
    while i < started.len()
        invariant
            i <= started@.len(),
            forall|q: int| 0 <= q < i ==> started@[q] != (kind, index),
        decreases started@.len() - i,
    {
        let entry = started[i];
        if entry.0 == kind && entry.1 == index {
            return Some(i);
        }
        i = i + 1;
    }
    None
}

/// A recording set without any occurrence of an entry.
pub fn remove_started(started: &Vec<StartedBuffer>, kind: VulkanBufferType, index: usize) -> (kept:
    Vec<StartedBuffer>)
    ensures
        kept@ == without(started@, (kind, index)),
{
    let mut kept: Vec<StartedBuffer> = Vec::new();
    let mut i: usize = 0;
    while i < started.len()
        invariant
            i <= started@.len(),
            kept@ == without(started@.take(i as int), (kind, index)),
        decreases started@.len() - i,
    {
        let entry = started[i];
        proof {
            assert(started@.take(i as int + 1).drop_last() =~= started@.take(i as int));
        }
        if !(entry.0 == kind && entry.1 == index) {
            kept.push(entry);
        }
        i = i + 1;
    }
    proof {
        assert(started@.take(i as int) =~= started@);
    }
    kept
}

impl VulkanCmdBuffer {
    /// What buffer allocation is asked for.
    pub open spec fn allocation_request(
        self,
        count: u32,
        level: VkCommandBufferLevel,
    ) -> VkCommandBufferAllocateInfo {
        VkCommandBufferAllocateInfo {
            commandPool: self.cmd_pool,
            level,
            commandBufferCount: count,
        }
    }

    /// Builds the block that buffer allocation is called with.
    pub fn allocate_info(&self, count: u32, level: VkCommandBufferLevel) -> (info:
        VkCommandBufferAllocateInfo)
        ensures
            info == self.allocation_request(count, level),
    {
        VkCommandBufferAllocateInfo { commandPool: self.cmd_pool, level, commandBufferCount: count }
    }

    /// Takes the replies of the buffer allocations and makes a buffer set
    /// with nothing recording.
    ///
    /// The primary buffers are allocated first. Secondary buffers are
    /// allocated only when `secondary_count` is not zero; when it is zero
    /// the second reply is not looked at and the set has no secondary
    /// buffers.
    pub fn new(
        cmd_pool: &VulkanCmdPool,
        primary_count: u32,
        secondary_count: u32,
        primary: CommandBufferAllocation,
        secondary: CommandBufferAllocation,
    ) -> (buffers: Result<Self, VulkanSynchroError>)
        ensures
            buffers is Err <==> (primary.result != VkResult_VK_SUCCESS || (secondary_count > 0
                && secondary.result != VkResult_VK_SUCCESS)),
            buffers matches Err(e) ==> e == VulkanSynchroError::COULDNT_CREATE_CMD_BUFFER,
            buffers matches Ok(b) ==> {
                &&& b.cmd_pool == cmd_pool.cmd_pool_handle
                &&& b.logical_device == cmd_pool.logical_device
                &&& b.primary_buffers == primary.buffers
                &&& if secondary_count > 0 {
                    b.secondary_buffers == secondary.buffers
                } else {
                    b.secondary_buffers@.len() == 0
                }
                &&& b.started_buffers@.len() == 0
                &&& b.well_formed()
            },
    {
        let mut cmd_buffer = VulkanCmdBuffer {
            cmd_pool: cmd_pool.cmd_pool_handle,
            logical_device: cmd_pool.logical_device,
            primary_buffers: Vec::new(),
            secondary_buffers: Vec::new(),
            started_buffers: Vec::new(),
        };
        let primary_buffers = match cmd_buffer.create_buffer(
            primary_count,
            VkCommandBufferLevel_VK_COMMAND_BUFFER_LEVEL_PRIMARY,
            primary,
        ) {
            Ok(b) => b,
            Err(e) => {
                return Err(e);
            },
        };
        cmd_buffer.primary_buffers = primary_buffers;
        if secondary_count > 0 {
            let secondary_buffers = match cmd_buffer.create_buffer(
                secondary_count,
                VkCommandBufferLevel_VK_COMMAND_BUFFER_LEVEL_SECONDARY,
                secondary,
            ) {
                Ok(b) => b,
                Err(e) => {
                    return Err(e);
                },
            };
            cmd_buffer.secondary_buffers = secondary_buffers;
        }
        Ok(cmd_buffer)
    }

    /// Takes the reply of one buffer allocation: the handles, when the
    /// call succeeded.
    pub fn create_buffer(
        &self,
        count: u32,
        level: VkCommandBufferLevel,
        allocation: CommandBufferAllocation,
    ) -> (buffers: Result<Vec<VkCommandBuffer>, VulkanSynchroError>)
        ensures
            buffers is Err <==> allocation.result != VkResult_VK_SUCCESS,
            buffers matches Err(e) ==> e == VulkanSynchroError::COULDNT_CREATE_CMD_BUFFER,
            buffers matches Ok(b) ==> b == allocation.buffers,
    {
        if allocation.result != VkResult_VK_SUCCESS {
            return Err(VulkanSynchroError::COULDNT_CREATE_CMD_BUFFER);
        }
        Ok(allocation.buffers)
    }

    /// The recording set.
    pub open spec fn recording(self) -> Seq<StartedBuffer> {
        self.started_buffers@
    }

    /// A buffer set is well formed when no buffer is in the recording set
    /// twice and every primary buffer in it exists.
    pub open spec fn well_formed(self) -> bool {
        &&& self.recording().no_duplicates()
        &&& forall|k: int|
            0 <= k < self.recording().len() && (#[trigger] self.recording()[k]).0
                == VulkanBufferType::PRIMARY ==> self.recording()[k].1
                < self.primary_buffers@.len()
    }

    /// Tells whether a buffer is recording.
    pub fn is_recording(&self, kind: VulkanBufferType, index: usize) -> (recording: bool)
        ensures
            recording == self.recording().contains((kind, index)),
    {
        is_started(&self.started_buffers, kind, index).is_some()
    }

    /// What `begin` is asked for: the usage flags, and no inheritance.
    pub fn begin_info(usage: VkBufferUsageFlagBits) -> (info: VkCommandBufferBeginInfo)
        ensures
            info == (VkCommandBufferBeginInfo { flags: usage }),
    {
        VkCommandBufferBeginInfo { flags: usage }
    }

    /// Takes the reply of `begin` on a primary buffer.
    ///
    /// Fails when the index is out of range or the call failed, and then
    /// changes nothing. On success the buffer is recording: its entry is
    /// in the recording set once, also when it was recording already.
    pub fn begin_primary_buffer(
        &mut self,
        buffer_idx: usize,
        usage: VkBufferUsageFlagBits,
        result: VkResult,
    ) -> (started: Result<(), VulkanSynchroError>)
        ensures
            started is Err <==> (buffer_idx >= old(self).primary_buffers@.len() || result
                != VkResult_VK_SUCCESS),
            started matches Err(e) ==> e
                == VulkanSynchroError::FAILED_STARTING_PRIMARY_BUFFER_RECORDING && *final(self)
                == *old(self),
            started is Ok ==> {
                &&& final(self).recording() == begun(
                    old(self).recording(),
                    (VulkanBufferType::PRIMARY, buffer_idx),
                )
                &&& old(self).well_formed() ==> final(self).well_formed()
                &&& final(self).cmd_pool == old(self).cmd_pool
                &&& final(self).logical_device == old(self).logical_device
                &&& final(self).primary_buffers == old(self).primary_buffers
                &&& final(self).secondary_buffers == old(self).secondary_buffers
            },
    {
        if buffer_idx >= self.primary_buffers.len() {
            return Err(VulkanSynchroError::FAILED_STARTING_PRIMARY_BUFFER_RECORDING);
        }
        if result != VkResult_VK_SUCCESS {
            return Err(VulkanSynchroError::FAILED_STARTING_PRIMARY_BUFFER_RECORDING);
        }
        if is_started(&self.started_buffers, VulkanBufferType::PRIMARY, buffer_idx).is_none() {
            self.started_buffers.push((VulkanBufferType::PRIMARY, buffer_idx));
        }
        proof {
            if old(self).well_formed() {
                lemma_begin_twice(old(self).recording(), (VulkanBufferType::PRIMARY, buffer_idx));
                let before = old(self).recording();
                assert forall|k: int|
                    0 <= k < self.recording().len() && (#[trigger] self.recording()[k]).0
                        == VulkanBufferType::PRIMARY implies self.recording()[k].1
                    < self.primary_buffers@.len() by {
                    if k < before.len() {
                        assert(self.recording()[k] == before[k]);
                    }
                }
            }
        }
        Ok(())
    }

    /// Takes the reply of `end` on a primary buffer.
    ///
    /// A buffer that is not recording is left alone: no call is made for
    /// it and `result` is not looked at. For a recording buffer the call
    /// was made: when it failed nothing changes, and when it succeeded the
    /// buffer's first entry leaves the recording set.
    pub fn end_primary_buffer(&mut self, buffer_idx: usize, result: VkResult) -> (ended: Result<
        (),
        VulkanSynchroError,
    >)
        ensures
            ended is Err <==> old(self).recording().contains((VulkanBufferType::PRIMARY, buffer_idx))
                && result != VkResult_VK_SUCCESS,
            ended matches Err(e) ==> e == VulkanSynchroError::FAILED_ENDING_PRIMARY_BUFFER_RECORDING
                && *final(self) == *old(self),
            ended is Ok && !old(self).recording().contains((VulkanBufferType::PRIMARY, buffer_idx))
                ==> *final(self) == *old(self),
            ended is Ok && old(self).recording().contains((VulkanBufferType::PRIMARY, buffer_idx))
                ==> {
                &&& exists|p: int|
                    is_first_position(
                        old(self).recording(),
                        (VulkanBufferType::PRIMARY, buffer_idx),
                        p,
                    ) && final(self).recording() == old(self).recording().remove(p)
                &&& old(self).well_formed() ==> final(self).well_formed()
                &&& old(self).well_formed() ==> !final(self).recording().contains(
                    (VulkanBufferType::PRIMARY, buffer_idx),
                )
                &&& final(self).cmd_pool == old(self).cmd_pool
                &&& final(self).logical_device == old(self).logical_device
                &&& final(self).primary_buffers == old(self).primary_buffers
                &&& final(self).secondary_buffers == old(self).secondary_buffers
            },
    {
        match is_started(&self.started_buffers, VulkanBufferType::PRIMARY, buffer_idx) {
            None => Ok(()),
            Some(p) => {
                if result != VkResult_VK_SUCCESS {
                    return Err(VulkanSynchroError::FAILED_ENDING_PRIMARY_BUFFER_RECORDING);
                }
                self.started_buffers.remove(p);
                proof {
                    let before = old(self).recording();
                    let after = self.recording();
                    let entry = (VulkanBufferType::PRIMARY, buffer_idx);
                    assert(is_first_position(before, entry, p as int));
                    if old(self).well_formed() {
                        assert forall|k: int| 0 <= k < after.len() implies #[trigger] after[k]
                            == before[if k < p {
                            k
                        } else {
                            k + 1
                        }] by {}
                        assert forall|i: int, j: int|
                            0 <= i < after.len() && 0 <= j < after.len() && i != j implies after[i]
                            != after[j] by {
                            let bi = if i < p {
                                i
                            } else {
                                i + 1
                            };
                            let bj = if j < p {
                                j
                            } else {
                                j + 1
                            };
                            assert(after[i] == before[bi]);
                            assert(after[j] == before[bj]);
                        }
                        if after.contains(entry) {
                            let k = choose|k: int| 0 <= k < after.len() && after[k] == entry;
                            let bk = if k < p {
                                k
                            } else {
                                k + 1
                            };
                            assert(after[k] == before[bk]);
                            assert(before[bk] == before[p as int]);
                        }
                    }
                }
                Ok(())
            },
        }
    }

    /// The flags that a buffer reset is called with.
    pub fn reset_flags(release_mem: bool) -> (flags: VkFlags)
        ensures
            flags == if release_mem {
                VkCommandBufferResetFlagBits_VK_COMMAND_BUFFER_RESET_RELEASE_RESOURCES_BIT
            } else {
                0
            },
    {
        if release_mem {
            VkCommandBufferResetFlagBits_VK_COMMAND_BUFFER_RESET_RELEASE_RESOURCES_BIT
        } else {
            0
        }
    }

    /// Takes the reply of a reset of a primary buffer.
    ///
    /// Fails when the index is out of range or the call failed. Whatever
    /// the outcome and whatever the buffer's state was, the recording set
    /// holds no entry for the buffer afterwards.
    pub fn reset_primary_buffer(
        &mut self,
        idx: usize,
        release_mem: bool,
        result: VkResult,
    ) -> (reset:
        Result<(), VulkanSynchroError>)
        ensures
            reset is Err <==> (idx >= old(self).primary_buffers@.len() || result
                != VkResult_VK_SUCCESS),
            reset matches Err(e) ==> e == VulkanSynchroError::FAILED_RESETING_PRIMARY_BUFFER,
            final(self).recording() == without(
                old(self).recording(),
                (VulkanBufferType::PRIMARY, idx),
            ),
            !final(self).recording().contains((VulkanBufferType::PRIMARY, idx)),
            old(self).well_formed() ==> final(self).well_formed(),
            final(self).cmd_pool == old(self).cmd_pool,
            final(self).logical_device == old(self).logical_device,
            final(self).primary_buffers == old(self).primary_buffers,
            final(self).secondary_buffers == old(self).secondary_buffers,
    {
        proof {
            lemma_without_contains(
                self.started_buffers@,
                (VulkanBufferType::PRIMARY, idx),
                (VulkanBufferType::PRIMARY, idx),
            );
        }
        self.started_buffers = remove_started(&self.started_buffers, VulkanBufferType::PRIMARY, idx);
        proof {
            if old(self).well_formed() {
                let before = old(self).recording();
                let after = self.recording();
                lemma_without_no_duplicates(before, (VulkanBufferType::PRIMARY, idx));
                assert forall|k: int|
                    0 <= k < after.len() && (#[trigger] after[k]).0
                        == VulkanBufferType::PRIMARY implies after[k].1
                    < self.primary_buffers@.len() by {
                    lemma_without_contains(before, (VulkanBufferType::PRIMARY, idx), after[k]);
                    assert(after.contains(after[k]));
                    let q = choose|q: int| 0 <= q < before.len() && before[q] == after[k];
                    assert(before[q].0 == VulkanBufferType::PRIMARY);
                }
            }
        }
        if idx >= self.primary_buffers.len() {
            return Err(VulkanSynchroError::FAILED_RESETING_PRIMARY_BUFFER);
        }
        if result != VkResult_VK_SUCCESS {
            return Err(VulkanSynchroError::FAILED_RESETING_PRIMARY_BUFFER);
        }
        Ok(())
    }
}

impl VulkanCmdPool {
    /// What pool creation is asked for: a pool of short-lived buffers that
    /// can be reset one by one, on queue family zero.
    pub open spec fn create_info() -> VkCommandPoolCreateInfo {
        VkCommandPoolCreateInfo {
            flags: VkCommandPoolCreateFlagBits_VK_COMMAND_POOL_CREATE_TRANSIENT_BIT
                | VkCommandPoolCreateFlagBits_VK_COMMAND_POOL_CREATE_RESET_COMMAND_BUFFER_BIT,
            queueFamilyIndex: 0,
        }
    }

    /// Builds the block that pool creation is called with.
    pub fn pool_create_info() -> (info: VkCommandPoolCreateInfo)
        ensures
            info == Self::create_info(),
            info.flags == 3,
    {
        assert(0x1u32 | 0x2u32 == 3u32) by (bit_vector);
        VkCommandPoolCreateInfo {
            flags: VkCommandPoolCreateFlagBits_VK_COMMAND_POOL_CREATE_TRANSIENT_BIT
                | VkCommandPoolCreateFlagBits_VK_COMMAND_POOL_CREATE_RESET_COMMAND_BUFFER_BIT,
            queueFamilyIndex: 0,
        }
    }

    /// Takes the reply of pool creation. The pool has no buffer set yet.
    pub fn new(
        logical_device: &VulkanLogicalDevice,
        result: VkResult,
        handle: VkCommandPool,
    ) -> (pool:
        Result<Self, VulkanSynchroError>)
        ensures
            pool is Err <==> result != VkResult_VK_SUCCESS,
            pool matches Err(e) ==> e == VulkanSynchroError::COULDNT_CREATE_CMD_POOL,
            pool matches Ok(p) ==> p.cmd_pool_handle == handle && p.logical_device
                == logical_device.device && p.cmd_buffers is None,
    {
        if result != VkResult_VK_SUCCESS {
            return Err(VulkanSynchroError::COULDNT_CREATE_CMD_POOL);
        }
        Ok(
            VulkanCmdPool {
                cmd_pool_handle: handle,
                logical_device: logical_device.device,
                cmd_buffers: None,
            },
        )
    }

    /// Takes the replies of the buffer allocations and gives the pool its
    /// buffer set, in place of the one it had (see
    /// [`VulkanCmdBuffer::new`]). On failure the pool keeps what it had.
    /// On success the buffer set is handed out for recording.
    pub fn create_buffers(
        &mut self,
        primary_count: u32,
        secondary_count: u32,
        primary: CommandBufferAllocation,
        secondary: CommandBufferAllocation,
    ) -> (created: Result<&mut VulkanCmdBuffer, VulkanSynchroError>)
        ensures
            created is Err <==> (primary.result != VkResult_VK_SUCCESS || (secondary_count > 0
                && secondary.result != VkResult_VK_SUCCESS)),
            created matches Err(e) ==> e == VulkanSynchroError::COULDNT_CREATE_CMD_BUFFER && *final(self)
                == *old(self),
            created matches Ok(b) ==> {
                &&& b.cmd_pool == old(self).cmd_pool_handle
                &&& b.logical_device == old(self).logical_device
                &&& b.primary_buffers == primary.buffers
                &&& if secondary_count > 0 {
                    b.secondary_buffers == secondary.buffers
                } else {
                    b.secondary_buffers@.len() == 0
                }
                &&& b.started_buffers@.len() == 0
                &&& b.well_formed()
                &&& *final(self) == (VulkanCmdPool { cmd_buffers: Some(*final(b)), ..*old(self) })
            },
    {
        let buffers = match VulkanCmdBuffer::new(
            self,
            primary_count,
            secondary_count,
            primary,
            secondary,
        ) {
            Ok(b) => b,
            Err(e) => {
                return Err(e);
            },
        };
        self.cmd_buffers = Some(buffers);
        match &mut self.cmd_buffers {
            Some(b) => Ok(b),
            None => Err(VulkanSynchroError::COULDNT_CREATE_CMD_BUFFER),
        }
    }

    /// The flags that a pool reset is called with.
    pub fn reset_flags(release_mem: bool) -> (flags: VkFlags)
        ensures
            flags == if release_mem {
                VkCommandPoolResetFlagBits_VK_COMMAND_POOL_RESET_RELEASE_RESOURCES_BIT
            } else {
                0
            },
    {
        if release_mem {
            VkCommandPoolResetFlagBits_VK_COMMAND_POOL_RESET_RELEASE_RESOURCES_BIT
        } else {
            0
        }
    }

    /// Takes the reply of a pool reset.
    ///
    /// When the call failed nothing changes. When it succeeded every
    /// buffer of the pool is idle: the recording set of the buffer set is
    /// empty.
    pub fn reset_pool(&mut self, release_mem: bool, result: VkResult) -> (reset: Result<
        (),
        VulkanSynchroError,
    >)
        ensures
            reset is Err <==> result != VkResult_VK_SUCCESS,
            reset matches Err(e) ==> e == VulkanSynchroError::FAILED_RESETING_POOL && *final(self)
                == *old(self),
            reset is Ok ==> {
                &&& final(self).cmd_pool_handle == old(self).cmd_pool_handle
                &&& final(self).logical_device == old(self).logical_device
                &&& match old(self).cmd_buffers {
                    None => final(self).cmd_buffers is None,
                    Some(before) => final(self).cmd_buffers matches Some(after) && ({
                        &&& after.recording().len() == 0
                        &&& after.well_formed()
                        &&& after.cmd_pool == before.cmd_pool
                        &&& after.logical_device == before.logical_device
                        &&& after.primary_buffers == before.primary_buffers
                        &&& after.secondary_buffers == before.secondary_buffers
                    }),
                }
            },
    {
        if result != VkResult_VK_SUCCESS {
            return Err(VulkanSynchroError::FAILED_RESETING_POOL);
        }
        match self.cmd_buffers.take() {
            None => {},
            Some(buffers) => {
                let VulkanCmdBuffer {
                    cmd_pool,
                    logical_device,
                    primary_buffers,
                    secondary_buffers,
                    started_buffers: _,
                } = buffers;
                self.cmd_buffers = Some(
                    VulkanCmdBuffer {
                        cmd_pool,
                        logical_device,
                        primary_buffers,
                        secondary_buffers,
                        started_buffers: Vec::new(),
                    },
                );
            },
        }
        Ok(())
    }

    /// What a submission of the pool's primary buffers hands to the queue:
    /// the wait list, the primary buffers, and one semaphore to signal.
    pub open spec fn submission(
        self,
        wait_sems: VulkanWaitSemaphoresInfo,
        signal: VkSemaphore,
    ) -> VkSubmitInfo {
        VkSubmitInfo {
            waitSemaphoreCount: wait_sems.semaphores@.len() as u32,
            commandBufferCount: self.cmd_buffers->Some_0.primary_buffers@.len() as u32,
            signalSemaphoreCount: 1,
            signalSemaphore: signal,
        }
    }

    /// Builds the block that the queue submission is called with, once the
    /// semaphore to signal has been created.
    pub fn submit_info(&self, wait_sems: &VulkanWaitSemaphoresInfo, signal: VkSemaphore) -> (info:
        VkSubmitInfo)
        requires
            self.cmd_buffers is Some,
        ensures
            info == self.submission(*wait_sems, signal),
    {
        let commands = match &self.cmd_buffers {
            Some(b) => b.primary_buffers.len(),
            None => 0,
        };
        VkSubmitInfo {
            waitSemaphoreCount: #[verifier::truncate] (wait_sems.semaphores.len() as u32),
            commandBufferCount: #[verifier::truncate] (commands as u32),
            signalSemaphoreCount: 1,
            signalSemaphore: signal,
        }
    }

    /// Takes the replies of a submission: that of the creation of the
    /// semaphore to signal, then that of the queue submission.
    ///
    /// Fails when the semaphore could not be created, and then the
    /// submission was not made and its reply is not looked at; or when the
    /// submission failed. Nothing is retried. The pool must have a buffer
    /// set.
    pub fn submit_buffers(
        &mut self,
        queue: VkQueue,
        wait_sems: &VulkanWaitSemaphoresInfo,
        semaphore_result: VkResult,
        semaphore: VkSemaphore,
        submit_result: VkResult,
    ) -> (submitted: Result<(), VulkanSynchroError>)
        requires
            old(self).cmd_buffers is Some,
        ensures
            *final(self) == *old(self),
            submitted is Ok <==> semaphore_result == VkResult_VK_SUCCESS && submit_result
                == VkResult_VK_SUCCESS,
            submitted matches Err(e) ==> if semaphore_result != VkResult_VK_SUCCESS {
                e == VulkanSynchroError::FAILED_CREATING_SEMAPHORE
            } else {
                e == VulkanSynchroError::FAILED_SUBMITING_BUFFERS
            },
    {
        match init_semaphore_reply(semaphore_result, semaphore) {
            Ok(_) => {},
            Err(e) => {
                return Err(e);
            },
        }
        if submit_result != VkResult_VK_SUCCESS {
            return Err(VulkanSynchroError::FAILED_SUBMITING_BUFFERS);
        }
        Ok(())
    }

    /// Gives up the pool. The handle returned is the one to destroy.
    pub fn destroy(self) -> (handle: VkCommandPool)
        ensures
            handle == self.cmd_pool_handle,
    {
        self.cmd_pool_handle
    }
}

/// Reads the reply of a semaphore creation.
pub fn init_semaphore_reply(result: VkResult, semaphore: VkSemaphore) -> (created: Result<
    VkSemaphore,
    VulkanSynchroError,
>)
    ensures
        created is Err <==> result != VkResult_VK_SUCCESS,
        created matches Err(e) ==> e == VulkanSynchroError::FAILED_CREATING_SEMAPHORE,
        created matches Ok(s) ==> s == semaphore,
{
    if result != VkResult_VK_SUCCESS {
        return Err(VulkanSynchroError::FAILED_CREATING_SEMAPHORE);
    }
    Ok(semaphore)
}

/// Takes the reply of a semaphore creation on a device: the semaphore,
/// when the call succeeded.
pub fn init_semaphore(
    logical_device: &VulkanLogicalDevice,
    result: VkResult,
    semaphore: VkSemaphore,
) -> (created:
    Result<VkSemaphore, VulkanSynchroError>)
    ensures
        created is Err <==> result != VkResult_VK_SUCCESS,
        created matches Err(e) ==> e == VulkanSynchroError::FAILED_CREATING_SEMAPHORE,
        created matches Ok(s) ==> s == semaphore,
{
    init_semaphore_reply(result, semaphore)
}

/// Takes the reply of a fence creation on a device: the fence, when the
/// call succeeded.
pub fn init_fence(
    logical_device: &VulkanLogicalDevice,
    result: VkResult,
    fence: VkFence,
) -> (created:
    Result<VkFence, VulkanSynchroError>)
    ensures
        created is Err <==> result != VkResult_VK_SUCCESS,
        created matches Err(e) ==> e == VulkanSynchroError::FAILED_CREATING_FENCE,
        created matches Ok(f) ==> f == fence,
{
    if result != VkResult_VK_SUCCESS {
        return Err(VulkanSynchroError::FAILED_CREATING_FENCE);
    }
    Ok(fence)
}

/// Takes the reply of a wait on fences. Anything but success, a timeout
/// included, is an error.
pub fn wait_fences(
    logical_device: &VulkanLogicalDevice,
    fences: &Vec<VkFence>,
    wait_all: VkBool32,
    timeout: u64,
    result: VkResult,
) -> (waited: Result<(), VulkanSynchroError>)
    ensures
        waited is Err <==> result != VkResult_VK_SUCCESS,
        waited matches Err(e) ==> e == VulkanSynchroError::COULDNT_WAIT_FOR_FENCES,
{
    if result != VkResult_VK_SUCCESS {
        return Err(VulkanSynchroError::COULDNT_WAIT_FOR_FENCES);
    }
    Ok(())
}

/// Takes the reply of a reset of fences.
pub fn reset_fences(
    logical_device: &VulkanLogicalDevice,
    fences: &Vec<VkFence>,
    result: VkResult,
) -> (reset:
    Result<(), VulkanSynchroError>)
    ensures
        reset is Err <==> result != VkResult_VK_SUCCESS,
        reset matches Err(e) ==> e == VulkanSynchroError::COULDNT_RESET_FENCES,
{
    if result != VkResult_VK_SUCCESS {
        return Err(VulkanSynchroError::COULDNT_RESET_FENCES);
    }
    Ok(())
}

} // verus!
