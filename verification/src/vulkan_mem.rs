//! Device memory, and the buffers and images that are bound to it.
//!
//! A memory type is selected by scanning the device's types in index
//! order. Writes are recorded as flush ranges; one flush submits them all
//! and clears the record.
use vstd::prelude::*;
use crate::logical_device::VulkanLogicalDevice;
use crate::vulkan_bindings::{
    flags_contain, VkAccessFlags, VkBuffer, VkBufferCopy, VkBufferCreateInfo,
    VkBufferMemoryBarrier, VkBufferUsageFlagBits_VK_BUFFER_USAGE_TRANSFER_DST_BIT,
    VkBufferUsageFlagBits_VK_BUFFER_USAGE_TRANSFER_SRC_BIT, VkBufferUsageFlags, VkBufferView,
    VkBufferViewCreateInfo, VkCommandBuffer, VkDevice, VkDeviceMemory, VkExtent3D, VkFormat,
    VkImage, VkImageAspectFlags, VkImageCreateInfo, VkImageLayout,
    VkImageLayout_VK_IMAGE_LAYOUT_UNDEFINED, VkImageMemoryBarrier, VkImageSubresourceRange,
    VkImageTiling_VK_IMAGE_TILING_OPTIMAL, VkImageType, VkImageUsageFlags, VkImageView,
    VkImageViewCreateInfo, VkImageViewType, VkMappedMemoryRange, VkMemoryAllocateInfo,
    VkMemoryPropertyFlagBits, VkMemoryPropertyFlagBits_VK_MEMORY_PROPERTY_HOST_VISIBLE_BIT,
    VkMemoryRequirements, VkMemoryType, VkPipelineStageFlags, VkResult, VkResult_VK_SUCCESS,
    VkSampleCountFlagBits, VkSharingMode_VK_SHARING_MODE_EXCLUSIVE, VK_MAX_MEMORY_TYPES,
    VK_NULL_HANDLE, VK_REMAINING_ARRAY_LAYERS, VK_REMAINING_MIP_LEVELS, VK_WHOLE_SIZE,
};

verus! {

/// What can go wrong with memory, buffers and images.
#[derive(Clone, Copy, Debug, PartialEq, Eq, Structural)]
pub enum VulkanMemError {
    COULDNT_ALLOCATE_BUFFER,
    COULDNT_ALLOCATE_DEVICE_MEMORY,
    FAILED_CREATING_BUFFER_VIEW,
    COULDNT_ALLOCATE_IMAGE,
    COULDNT_BIND_IMAGE_MEMORY,
    FAILED_CREATING_IMAGE_VIEW,
    FAILED_GETTING_MEMORY_POINTER,
    COULDNT_FLUSH_MEMORY,
    CANT_COPY_FROM_SRC,
    CANT_WRITE_TO_DST,
}

impl VulkanMemError {
    /// The text that reports the error.
    pub open spec fn message(self) -> Seq<char> {
        match self {
            VulkanMemError::COULDNT_ALLOCATE_BUFFER => "Couldn't allocate a buffer memory"@,
            VulkanMemError::COULDNT_ALLOCATE_DEVICE_MEMORY =>
                "Couldn't allocate device memory for buffer"@,
            VulkanMemError::FAILED_CREATING_BUFFER_VIEW => "Failed creating buffer view"@,
            VulkanMemError::COULDNT_ALLOCATE_IMAGE => "Couldn't allocate an image"@,
            VulkanMemError::COULDNT_BIND_IMAGE_MEMORY => "Couldn't bind image memory"@,
            VulkanMemError::FAILED_CREATING_IMAGE_VIEW => "Failed creating image view"@,
            VulkanMemError::FAILED_GETTING_MEMORY_POINTER => "Failed getting memory pointer"@,
            VulkanMemError::COULDNT_FLUSH_MEMORY => "Couldn't flush memory"@,
            VulkanMemError::CANT_COPY_FROM_SRC => "Cant copy from source buffer"@,
            VulkanMemError::CANT_WRITE_TO_DST => "Can't write to destination buffer"@,
        }
    }

    /// The text that reports the error.
    pub fn to_string(&self) -> (text: String)
        ensures
            text@ == self.message(),
    {
        match self {
            VulkanMemError::COULDNT_ALLOCATE_BUFFER => String::from_str(
                "Couldn't allocate a buffer memory",
            ),
            VulkanMemError::COULDNT_ALLOCATE_DEVICE_MEMORY => String::from_str(
                "Couldn't allocate device memory for buffer",
            ),
            VulkanMemError::FAILED_CREATING_BUFFER_VIEW => String::from_str(
                "Failed creating buffer view",
            ),
            VulkanMemError::COULDNT_ALLOCATE_IMAGE => String::from_str("Couldn't allocate an image"),
            VulkanMemError::COULDNT_BIND_IMAGE_MEMORY => String::from_str(
                "Couldn't bind image memory",
            ),
            VulkanMemError::FAILED_CREATING_IMAGE_VIEW => String::from_str(
                "Failed creating image view",
            ),
            VulkanMemError::FAILED_GETTING_MEMORY_POINTER => String::from_str(
                "Failed getting memory pointer",
            ),
            VulkanMemError::COULDNT_FLUSH_MEMORY => String::from_str("Couldn't flush memory"),
            VulkanMemError::CANT_COPY_FROM_SRC => String::from_str("Cant copy from source buffer"),
            VulkanMemError::CANT_WRITE_TO_DST => String::from_str(
                "Can't write to destination buffer",
            ),
        }
    }
}

/// A change of access and ownership that a barrier makes on a buffer.
#[derive(Clone, Copy, Debug, PartialEq, Eq, Structural)]
pub struct VulkanBufferTransition {
    pub buffer: VkBuffer,
    pub current_access: VkAccessFlags,
    pub new_access: VkAccessFlags,
    pub current_fam_queue: u32,
    pub new_fam_queue: u32,
}

/// A change of access, layout and ownership that a barrier makes on an
/// image.
#[derive(Clone, Copy, Debug, PartialEq, Eq, Structural)]
pub struct VulkanImageTransition {
    pub image: VkImage,
    pub current_access: VkAccessFlags,
    pub new_access: VkAccessFlags,
    pub current_layout: VkImageLayout,
    pub new_layout: VkImageLayout,
    pub current_fam_queue: u32,
    pub new_fam_queue: u32,
    pub aspect: VkImageAspectFlags,
}

/// Memory type `i` is allowed by the requirement's type bits.
pub open spec fn type_allowed(type_bits: u32, i: int) -> bool {
    0 <= i < VK_MAX_MEMORY_TYPES && (type_bits >> (i as u32)) & 1 == 1
}

/// Memory type `i` fits a requirement: the type bits allow it and its
/// property flags hold every requested property.
pub open spec fn memory_type_fits(
    types: Seq<VkMemoryType>,
    type_bits: u32,
    properties: VkMemoryPropertyFlagBits,
    i: int,
) -> bool {
    &&& 0 <= i < types.len()
    &&& type_allowed(type_bits, i)
    &&& flags_contain(types[i].propertyFlags, properties)
}

/// What selection yields: the first memory type that fits, or nothing
/// when none does.
pub open spec fn memory_type_selected(
    types: Seq<VkMemoryType>,
    type_bits: u32,
    properties: VkMemoryPropertyFlagBits,
    selected: Option<u32>,
) -> bool {
    match selected {
        Some(index) => memory_type_fits(types, type_bits, properties, index as int) && forall|
            j: int,
        |
            0 <= j < index ==> !memory_type_fits(types, type_bits, properties, j),
        None => forall|j: int|
            0 <= j < types.len() ==> !memory_type_fits(types, type_bits, properties, j),
    }
}

/// Some memory type fits the requirement.
pub open spec fn some_type_fits(
    types: Seq<VkMemoryType>,
    type_bits: u32,
    properties: VkMemoryPropertyFlagBits,
) -> bool {
    exists|j: int| memory_type_fits(types, type_bits, properties, j)
}

/// Selects the memory type for a requirement: the first index that the
/// type bits allow and whose property flags hold every requested
/// property. No weaker match is taken.
pub fn select_memory_type(
    types: &Vec<VkMemoryType>,
    type_bits: u32,
    properties: VkMemoryPropertyFlagBits,
) -> (selected: Option<u32>)
    ensures
        memory_type_selected(types@, type_bits, properties, selected),
        selected is Some <==> some_type_fits(types@, type_bits, properties),
{
    let mut index: u32 = 0;
    while index < VK_MAX_MEMORY_TYPES && (index as usize) < types.len()
        invariant
            index <= VK_MAX_MEMORY_TYPES,
            index <= types@.len(),
            forall|j: int| 0 <= j < index ==> !memory_type_fits(types@, type_bits, properties, j),
        decreases VK_MAX_MEMORY_TYPES - index,
    {
        let flags = types[index as usize].propertyFlags;
        if (type_bits >> index) & 1 == 1 && flags & properties == properties {
            return Some(index);
        }
        index = index + 1;
    }
    None
}

/// When no memory type is a partial match, that is, when every type whose
/// flags hold the requested properties holds exactly those, the selected
/// type is allowed by the type bits and has exactly the requested flags,
/// and nothing is selected exactly when no type is both allowed and
/// exact.
pub proof fn lemma_exact_match_selected(
    types: Seq<VkMemoryType>,
    type_bits: u32,
    properties: VkMemoryPropertyFlagBits,
    selected: Option<u32>,
)
    requires
        memory_type_selected(types, type_bits, properties, selected),
        forall|i: int|
            0 <= i < types.len() && flags_contain(#[trigger] types[i].propertyFlags, properties)
                ==> types[i].propertyFlags == properties,
    ensures
        selected matches Some(index) ==> (type_bits >> index) & 1 == 1
            && types[index as int].propertyFlags == properties,
        selected is None <==> forall|i: int|
            0 <= i < types.len() && i < VK_MAX_MEMORY_TYPES ==> !((type_bits >> (i as u32)) & 1 == 1
                && (#[trigger] types[i]).propertyFlags == properties),
{
    assert(forall|flags: u32| flags & flags == flags) by (bit_vector);
    match selected {
        Some(index) => {
            assert(memory_type_fits(types, type_bits, properties, index as int));
        },
        None => {
            assert forall|i: int| 0 <= i < types.len() && i < VK_MAX_MEMORY_TYPES implies !((type_bits
                >> (i as u32)) & 1 == 1 && (#[trigger] types[i]).propertyFlags == properties) by {
                assert(!memory_type_fits(types, type_bits, properties, i));
            }
        },
    }
}

/// The reply of a mapping call.
#[derive(Clone, Copy, Debug, PartialEq, Eq, Structural)]
pub struct MapReply {
    pub result: VkResult,
    /// Address that the memory was mapped at.
    pub pointer: u64,
}

/// What is left to do for a memory block that is given up.
#[derive(Clone, Copy, Debug, PartialEq, Eq, Structural)]
pub struct MemoryRelease {
    pub logical_device: VkDevice,
    pub memory: VkDeviceMemory,
    /// The block is mapped and has to be unmapped.
    pub unmap: bool,
}

/// One native memory allocation.
#[derive(Debug)]
pub struct VulkanDeviceMemory {
    pub logical_device: VkDevice,
    pub handle: VkDeviceMemory,
    pub size: u64,
    pub properties: VkMemoryPropertyFlagBits,
    /// Address the block is mapped at, zero while it is not mapped.
    pub data_region: u64,
    /// The ranges written since the last flush.
    pub flushable_memory: Vec<VkMappedMemoryRange>,
}

impl VulkanDeviceMemory {
    /// The block that allocation is called with, when a memory type fits.
    pub open spec fn allocation_request(
        types: Seq<VkMemoryType>,
        mem_req: VkMemoryRequirements,
        mem_props: VkMemoryPropertyFlagBits,
        info: Option<VkMemoryAllocateInfo>,
    ) -> bool {
        match info {
            None => memory_type_selected(types, mem_req.memoryTypeBits, mem_props, None),
            Some(i) => i.allocationSize == mem_req.size && memory_type_selected(
                types,
                mem_req.memoryTypeBits,
                mem_props,
                Some(i.memoryTypeIndex),
            ),
        }
    }

    /// Builds the block that allocation is called with: the required size
    /// and the selected memory type. There is none when no memory type
    /// fits, and the allocation then fails without a call.
    pub fn allocation_info(
        logical_device: &VulkanLogicalDevice,
        mem_req: &VkMemoryRequirements,
        mem_props: VkMemoryPropertyFlagBits,
    ) -> (info: Option<VkMemoryAllocateInfo>)
        ensures
            Self::allocation_request(logical_device.memory_types@, *mem_req, mem_props, info),
            info is Some <==> some_type_fits(
                logical_device.memory_types@,
                mem_req.memoryTypeBits,
                mem_props,
            ),
    {
        match select_memory_type(&logical_device.memory_types, mem_req.memoryTypeBits, mem_props) {
            None => None,
            Some(index) => Some(
                VkMemoryAllocateInfo { allocationSize: mem_req.size, memoryTypeIndex: index },
            ),
        }
    }

    /// Takes the reply of the allocation call.
    ///
    /// The allocation fails when no memory type fits the requirement, when
    /// the call failed, or when it returned no handle. Otherwise the block
    /// is recorded, unmapped and with nothing to flush.
    pub fn new(
        logical_device: &VulkanLogicalDevice,
        mem_req: &VkMemoryRequirements,
        mem_props: VkMemoryPropertyFlagBits,
        result: VkResult,
        handle: VkDeviceMemory,
    ) -> (memory: Result<Self, VulkanMemError>)
        ensures
            memory is Ok <==> some_type_fits(
                logical_device.memory_types@,
                mem_req.memoryTypeBits,
                mem_props,
            ) && result == VkResult_VK_SUCCESS && handle != VK_NULL_HANDLE,
            memory matches Err(e) ==> e == VulkanMemError::COULDNT_ALLOCATE_DEVICE_MEMORY,
            memory matches Ok(m) ==> {
                &&& m.logical_device == logical_device.device
                &&& m.handle == handle
                &&& m.size == mem_req.size
                &&& m.properties == mem_props
                &&& m.data_region == 0
                &&& m.flushable_memory@.len() == 0
            },
    {
        if Self::allocation_info(logical_device, mem_req, mem_props).is_none() {
            return Err(VulkanMemError::COULDNT_ALLOCATE_DEVICE_MEMORY);
        }
        if result != VkResult_VK_SUCCESS || handle == VK_NULL_HANDLE {
            return Err(VulkanMemError::COULDNT_ALLOCATE_DEVICE_MEMORY);
        }
        Ok(
            VulkanDeviceMemory {
                logical_device: logical_device.device,
                handle,
                size: mem_req.size,
                properties: mem_props,
                data_region: 0,
                flushable_memory: Vec::new(),
            },
        )
    }

    /// True when the block is mapped.
    pub open spec fn is_mapped(self) -> bool {
        self.data_region != 0
    }

    /// Tells whether the block is mapped. A block that is not has to be
    /// mapped before the next write.
    pub fn mapped(&self) -> (mapped: bool)
        ensures
            mapped == self.is_mapped(),
    {
        self.data_region != 0
    }

    /// Takes the reply of the mapping call: the address is kept when the
    /// call succeeded.
    pub fn load_data_region(&mut self, result: VkResult, pointer: u64) -> (loaded: Result<
        (),
        VulkanMemError,
    >)
        ensures
            loaded is Err <==> result != VkResult_VK_SUCCESS,
            loaded matches Err(e) ==> e == VulkanMemError::FAILED_GETTING_MEMORY_POINTER
                && *final(self) == *old(self),
            loaded is Ok ==> *final(self) == (VulkanDeviceMemory {
                data_region: pointer,
                ..*old(self)
            }),
    {
        if result != VkResult_VK_SUCCESS {
            return Err(VulkanMemError::FAILED_GETTING_MEMORY_POINTER);
        }
        self.data_region = pointer;
        Ok(())
    }

    /// The block can take a write: it is mapped already, or the mapping
    /// call that was made for this write succeeded and gave an address.
    pub open spec fn can_write(self, mapping: Option<MapReply>) -> bool {
        self.is_mapped() || (mapping matches Some(reply) && (reply.result == VkResult_VK_SUCCESS
            && reply.pointer != 0))
    }

    /// The range that a write of `size` bytes leaves to flush: from the
    /// start of the block, as long as the write.
    pub open spec fn written_range(self, size: usize) -> VkMappedMemoryRange {
        VkMappedMemoryRange { memory: self.handle, offset: 0, size: size as u64 }
    }

    /// Records a write of `size` bytes.
    ///
    /// `mapping` is the reply of the mapping call, which is made for the
    /// first write only; the address stays for the life of the block. When
    /// the block can take the write, a flush range is added for it and the
    /// data may be copied to the mapped address. Otherwise nothing changes
    /// and nothing may be copied.
    pub fn map_data(&mut self, size: usize, mapping: Option<MapReply>) -> (written: bool)
        ensures
            written == old(self).can_write(mapping),
            !written ==> *final(self) == *old(self),
            written ==> {
                &&& final(self).is_mapped()
                &&& old(self).is_mapped() ==> final(self).data_region == old(self).data_region
                &&& !old(self).is_mapped() ==> (mapping matches Some(reply) && final(self).data_region
                    == reply.pointer)
                &&& final(self).flushable_memory@ == old(self).flushable_memory@.push(
                    old(self).written_range(size),
                )
                &&& final(self).logical_device == old(self).logical_device
                &&& final(self).handle == old(self).handle
                &&& final(self).size == old(self).size
                &&& final(self).properties == old(self).properties
            },
    {
        if self.data_region == 0 {
            match mapping {
                None => {
                    return false;
                },
                Some(reply) => {
                    if reply.pointer == 0 {
                        return false;
                    }
                    match self.load_data_region(reply.result, reply.pointer) {
                        Ok(_) => {},
                        Err(_) => {
                            return false;
                        },
                    }
                },
            }
        }
        self.flushable_memory.push(
            VkMappedMemoryRange { memory: self.handle, offset: 0, size: size as u64 },
        );
        true
    }

    /// Takes the reply of the flush call.
    ///
    /// With nothing to flush no call is made and nothing happens, whatever
    /// `result` holds. Otherwise all recorded ranges were submitted in one
    /// call: the record is cleared when the call succeeded and kept when
    /// it failed.
    pub fn flush_maped_memory(&mut self, result: VkResult) -> (flushed: Result<(), VulkanMemError>)
        ensures
            flushed is Err <==> old(self).flushable_memory@.len() > 0 && result
                != VkResult_VK_SUCCESS,
            flushed matches Err(e) ==> e == VulkanMemError::COULDNT_FLUSH_MEMORY && *final(self)
                == *old(self),
            flushed is Ok ==> {
                &&& final(self).flushable_memory@.len() == 0
                &&& final(self).logical_device == old(self).logical_device
                &&& final(self).handle == old(self).handle
                &&& final(self).size == old(self).size
                &&& final(self).properties == old(self).properties
                &&& final(self).data_region == old(self).data_region
            },
    {
        if self.flushable_memory.len() == 0 {
            return Ok(());
        }
        if result != VkResult_VK_SUCCESS {
            return Err(VulkanMemError::COULDNT_FLUSH_MEMORY);
        }
        self.flushable_memory.clear();
        Ok(())
    }

    /// Gives up the block. A block is unmapped only here, and only when
    /// it was mapped.
    pub fn destroy(self) -> (release: MemoryRelease)
        ensures
            release == (MemoryRelease {
                logical_device: self.logical_device,
                memory: self.handle,
                unmap: self.is_mapped(),
            }),
    {
        MemoryRelease {
            logical_device: self.logical_device,
            memory: self.handle,
            unmap: self.data_region != 0,
        }
    }
}

/// The barrier that makes a buffer transition: the whole buffer, from the
/// current access and queue family to the new ones.
pub open spec fn buffer_barrier_of(transition: VulkanBufferTransition) -> VkBufferMemoryBarrier {
    VkBufferMemoryBarrier {
        srcAccessMask: transition.current_access,
        dstAccessMask: transition.new_access,
        srcQueueFamilyIndex: transition.current_fam_queue,
        dstQueueFamilyIndex: transition.new_fam_queue,
        buffer: transition.buffer,
        offset: 0,
        size: VK_WHOLE_SIZE,
    }
}

/// The barrier that makes an image transition: every mip level and array
/// layer of the aspect, from the current access, layout and queue family
/// to the new ones.
pub open spec fn image_barrier_of(transition: VulkanImageTransition) -> VkImageMemoryBarrier {
    VkImageMemoryBarrier {
        srcAccessMask: transition.current_access,
        dstAccessMask: transition.new_access,
        oldLayout: transition.current_layout,
        newLayout: transition.new_layout,
        srcQueueFamilyIndex: transition.current_fam_queue,
        dstQueueFamilyIndex: transition.new_fam_queue,
        image: transition.image,
        subresourceRange: VkImageSubresourceRange {
            aspectMask: transition.aspect,
            baseMipLevel: 0,
            levelCount: VK_REMAINING_MIP_LEVELS,
            baseArrayLayer: 0,
            layerCount: VK_REMAINING_ARRAY_LAYERS,
        },
    }
}

/// A pipeline barrier on buffers that is to be recorded.
#[derive(Debug)]
pub struct BufferBarrierCommand {
    pub cmd_buffer: VkCommandBuffer,
    pub generating_stages: VkPipelineStageFlags,
    pub consuming_stages: VkPipelineStageFlags,
    pub barriers: Vec<VkBufferMemoryBarrier>,
}

/// A pipeline barrier on images that is to be recorded.
#[derive(Debug)]
pub struct ImageBarrierCommand {
    pub cmd_buffer: VkCommandBuffer,
    pub generating_stages: VkPipelineStageFlags,
    pub consuming_stages: VkPipelineStageFlags,
    pub barriers: Vec<VkImageMemoryBarrier>,
}

/// A buffer copy that is to be recorded.
#[derive(Debug)]
pub struct BufferCopyCommand {
    pub cmd_buffer: VkCommandBuffer,
    pub source: VkBuffer,
    pub destination: VkBuffer,
    pub regions: Vec<VkBufferCopy>,
}

/// A buffer with the memory that is bound to it.
#[derive(Debug)]
pub struct VulkanBufferMem {
    pub logical_device: VkDevice,
    pub handle: VkBuffer,
    pub size: u64,
    pub usage: VkBufferUsageFlags,
    pub device_memory: Option<VulkanDeviceMemory>,
    pub buffer_view: VkBufferView,
    /// The copies into this buffer that are recorded and not yet flushed.
    pub copied_regions: Vec<VkBufferCopy>,
}

impl VulkanBufferMem {
    /// What buffer creation is asked for: an exclusive buffer of the given
    /// size and usage.
    pub open spec fn create_info(size: u64, usage: VkBufferUsageFlags) -> VkBufferCreateInfo {
        VkBufferCreateInfo {
            flags: 0,
            size,
            usage,
            sharingMode: VkSharingMode_VK_SHARING_MODE_EXCLUSIVE,
            queueFamilyIndexCount: 0,
        }
    }

    /// Builds the block that buffer creation is called with.
    pub fn buffer_create_info(size: u64, usage: VkBufferUsageFlags) -> (info: VkBufferCreateInfo)
        ensures
            info == Self::create_info(size, usage),
    {
        VkBufferCreateInfo {
            flags: 0,
            size,
            usage,
            sharingMode: VkSharingMode_VK_SHARING_MODE_EXCLUSIVE,
            queueFamilyIndexCount: 0,
        }
    }

    /// The memory properties that a buffer's memory is allocated with.
    pub fn memory_properties() -> (properties: VkMemoryPropertyFlagBits)
        ensures
            properties == VkMemoryPropertyFlagBits_VK_MEMORY_PROPERTY_HOST_VISIBLE_BIT,
    {
        VkMemoryPropertyFlagBits_VK_MEMORY_PROPERTY_HOST_VISIBLE_BIT
    }

    /// Takes the reply of buffer creation. The buffer has no memory yet:
    /// memory is allocated and bound next, with
    /// [`VulkanBufferMem::allocate_memory`].
    pub fn new(
        logical_device: &VulkanLogicalDevice,
        size: u64,
        usage: VkBufferUsageFlags,
        result: VkResult,
        handle: VkBuffer,
    ) -> (buffer: Result<Self, VulkanMemError>)
        ensures
            buffer is Err <==> result != VkResult_VK_SUCCESS,
            buffer matches Err(e) ==> e == VulkanMemError::COULDNT_ALLOCATE_BUFFER,
            buffer matches Ok(b) ==> {
                &&& b.logical_device == logical_device.device
                &&& b.handle == handle
                &&& b.size == size
                &&& b.usage == usage
                &&& b.device_memory is None
                &&& b.buffer_view == VK_NULL_HANDLE
                &&& b.copied_regions@.len() == 0
            },
    {
        if result != VkResult_VK_SUCCESS {
            return Err(VulkanMemError::COULDNT_ALLOCATE_BUFFER);
        }
        Ok(
            VulkanBufferMem {
                logical_device: logical_device.device,
                handle,
                size,
                usage,
                device_memory: None,
                buffer_view: VK_NULL_HANDLE,
                copied_regions: Vec::new(),
            },
        )
    }

    /// True when memory is bound to the buffer. A buffer without memory is
    /// not usable for transfers or as a barrier target.
    pub open spec fn is_bound(self) -> bool {
        self.device_memory is Some
    }

    /// Takes the replies of the allocation and of the binding call.
    ///
    /// Memory is bound once: a buffer that has memory takes no other.
    /// Binding also fails when the allocation fails (see
    /// [`VulkanDeviceMemory::new`]) or when the binding call failed; the
    /// binding reply is not looked at when the allocation failed. On
    /// success the buffer owns the memory.
    pub fn allocate_memory(
        &mut self,
        logical_device: &VulkanLogicalDevice,
        mem_req: &VkMemoryRequirements,
        mem_props: VkMemoryPropertyFlagBits,
        result: VkResult,
        memory: VkDeviceMemory,
        bind_result: VkResult,
    ) -> (bound: Result<(), VulkanMemError>)
        ensures
            bound is Ok <==> old(self).device_memory is None && some_type_fits(
                logical_device.memory_types@,
                mem_req.memoryTypeBits,
                mem_props,
            ) && result == VkResult_VK_SUCCESS && memory != VK_NULL_HANDLE && bind_result
                == VkResult_VK_SUCCESS,
            bound matches Err(e) ==> e == VulkanMemError::COULDNT_ALLOCATE_DEVICE_MEMORY
                && *final(self) == *old(self),
            bound is Ok ==> {
                &&& final(self).device_memory matches Some(m) && (m.logical_device
                    == logical_device.device && m.handle == memory && m.size == mem_req.size
                    && m.properties == mem_props && m.data_region == 0
                    && m.flushable_memory@.len() == 0)
                &&& final(self).logical_device == old(self).logical_device
                &&& final(self).handle == old(self).handle
                &&& final(self).size == old(self).size
                &&& final(self).usage == old(self).usage
                &&& final(self).buffer_view == old(self).buffer_view
                &&& final(self).copied_regions == old(self).copied_regions
            },
    {
        if self.device_memory.is_some() {
            return Err(VulkanMemError::COULDNT_ALLOCATE_DEVICE_MEMORY);
        }
        let device_memory = match VulkanDeviceMemory::new(
            logical_device,
            mem_req,
            mem_props,
            result,
            memory,
        ) {
            Ok(m) => m,
            Err(e) => {
                return Err(e);
            },
        };
        if bind_result != VkResult_VK_SUCCESS {
            return Err(VulkanMemError::COULDNT_ALLOCATE_DEVICE_MEMORY);
        }
        self.device_memory = Some(device_memory);
        Ok(())
    }

    /// Builds the barriers for a list of buffer transitions, one for each
    /// in order. With no transition there is nothing to record.
    pub fn create_buffers_barriers(
        transitions: Vec<VulkanBufferTransition>,
        cmd_buffer: VkCommandBuffer,
        generating_stages: VkPipelineStageFlags,
        consuming_stages: VkPipelineStageFlags,
    ) -> (command: Option<BufferBarrierCommand>)
        ensures
            command is Some <==> transitions@.len() > 0,
            command matches Some(c) ==> {
                &&& c.cmd_buffer == cmd_buffer
                &&& c.generating_stages == generating_stages
                &&& c.consuming_stages == consuming_stages
                &&& c.barriers@ == transitions@.map_values(
                    |t: VulkanBufferTransition| buffer_barrier_of(t),
                )
            },
    {
        let mut barriers: Vec<VkBufferMemoryBarrier> = Vec::with_capacity(transitions.len());
        let mut i: usize = 0;
        while i < transitions.len()
            invariant
                i <= transitions@.len(),
                barriers@ == transitions@.take(i as int).map_values(
                    |t: VulkanBufferTransition| buffer_barrier_of(t),
                ),
            decreases transitions@.len() - i,
        {
            let transition = transitions[i];
            barriers.push(
                VkBufferMemoryBarrier {
                    srcAccessMask: transition.current_access,
                    dstAccessMask: transition.new_access,
                    srcQueueFamilyIndex: transition.current_fam_queue,
                    dstQueueFamilyIndex: transition.new_fam_queue,
                    buffer: transition.buffer,
                    offset: 0,
                    size: VK_WHOLE_SIZE,
                },
            );
            proof {
                assert(barriers@ =~= transitions@.take(i as int + 1).map_values(
                    |t: VulkanBufferTransition| buffer_barrier_of(t),
                ));
            }
            i = i + 1;
        }
        proof {
            assert(transitions@.take(i as int) =~= transitions@);
        }
        if barriers.len() > 0 {
            Some(BufferBarrierCommand { cmd_buffer, generating_stages, consuming_stages, barriers })
        } else {
            None
        }
    }

    /// What view creation is asked for: a view of the whole buffer in the
    /// given format.
    pub open spec fn view_create_info(self, format: VkFormat) -> VkBufferViewCreateInfo {
        VkBufferViewCreateInfo { flags: 0, buffer: self.handle, format, offset: 0, range: self.size }
    }

    /// Builds the block that view creation is called with.
    pub fn buffer_view_create_info(&self, format: VkFormat) -> (info: VkBufferViewCreateInfo)
        ensures
            info == self.view_create_info(format),
    {
        VkBufferViewCreateInfo { flags: 0, buffer: self.handle, format, offset: 0, range: self.size }
    }

    /// Takes the reply of view creation: the view is kept when the call
    /// succeeded and returned a handle.
    pub fn create_buffer_view(&mut self, result: VkResult, view: VkBufferView) -> (created: Result<
        (),
        VulkanMemError,
    >)
        ensures
            created is Err <==> (result != VkResult_VK_SUCCESS || view == VK_NULL_HANDLE),
            created matches Err(e) ==> e == VulkanMemError::FAILED_CREATING_BUFFER_VIEW
                && *final(self) == *old(self),
            created is Ok ==> *final(self) == (VulkanBufferMem { buffer_view: view, ..*old(self) }),
    {
        if result != VkResult_VK_SUCCESS || view == VK_NULL_HANDLE {
            return Err(VulkanMemError::FAILED_CREATING_BUFFER_VIEW);
        }
        self.buffer_view = view;
        Ok(())
    }

    /// This buffer can take a transfer: it is usable as a transfer
    /// destination and has memory.
    pub open spec fn can_receive(self) -> bool {
        flags_contain(self.usage, VkBufferUsageFlagBits_VK_BUFFER_USAGE_TRANSFER_DST_BIT)
            && self.is_bound()
    }

    /// This buffer can give a transfer: it is usable as a transfer source
    /// and has memory.
    pub open spec fn can_send(self) -> bool {
        flags_contain(self.usage, VkBufferUsageFlagBits_VK_BUFFER_USAGE_TRANSFER_SRC_BIT)
            && self.is_bound()
    }

    /// Records a copy of the whole of `src` into this buffer.
    ///
    /// This buffer must be able to take a transfer and `src` to give one;
    /// the destination is checked first. A buffer without memory can do
    /// neither.
    pub fn copy_buffer(&mut self, src: &VulkanBufferMem) -> (recorded: Result<(), VulkanMemError>)
        ensures
            recorded is Ok <==> old(self).can_receive() && src.can_send(),
            recorded matches Err(e) ==> *final(self) == *old(self) && e == if !old(self).can_receive() {
                VulkanMemError::CANT_WRITE_TO_DST
            } else {
                VulkanMemError::CANT_COPY_FROM_SRC
            },
            recorded is Ok ==> {
                &&& final(self).copied_regions@ == old(self).copied_regions@.push(
                    VkBufferCopy { srcOffset: 0, dstOffset: 0, size: src.size },
                )
                &&& final(self).logical_device == old(self).logical_device
                &&& final(self).handle == old(self).handle
                &&& final(self).size == old(self).size
                &&& final(self).usage == old(self).usage
                &&& final(self).device_memory == old(self).device_memory
                &&& final(self).buffer_view == old(self).buffer_view
            },
    {
        let dst_bit = VkBufferUsageFlagBits_VK_BUFFER_USAGE_TRANSFER_DST_BIT;
        if self.usage & dst_bit != dst_bit || self.device_memory.is_none() {
            return Err(VulkanMemError::CANT_WRITE_TO_DST);
        }
        let src_bit = VkBufferUsageFlagBits_VK_BUFFER_USAGE_TRANSFER_SRC_BIT;
        if src.usage & src_bit != src_bit || src.device_memory.is_none() {
            return Err(VulkanMemError::CANT_COPY_FROM_SRC);
        }
        self.copied_regions.push(VkBufferCopy { srcOffset: 0, dstOffset: 0, size: src.size });
        Ok(())
    }

    /// Hands out the recorded copies as one command and clears the record.
    /// With nothing recorded there is nothing to do.
    pub fn flush_copied_buffer(
        &mut self,
        cmd_buffer: VkCommandBuffer,
        src: &VulkanBufferMem,
    ) -> (command:
        Option<BufferCopyCommand>)
        ensures
            command is Some <==> old(self).copied_regions@.len() > 0,
            command matches Some(c) ==> {
                &&& c.cmd_buffer == cmd_buffer
                &&& c.source == src.handle
                &&& c.destination == old(self).handle
                &&& c.regions@ == old(self).copied_regions@
            },
            final(self).copied_regions@.len() == 0,
            final(self).logical_device == old(self).logical_device,
            final(self).handle == old(self).handle,
            final(self).size == old(self).size,
            final(self).usage == old(self).usage,
            final(self).device_memory == old(self).device_memory,
            final(self).buffer_view == old(self).buffer_view,
    {
        if self.copied_regions.len() == 0 {
            return None;
        }
        let mut regions: Vec<VkBufferCopy> = Vec::new();
        regions.append(&mut self.copied_regions);
        Some(BufferCopyCommand { cmd_buffer, source: src.handle, destination: self.handle, regions })
    }

    /// Gives up the buffer: what is left to do for its memory, if it has
    /// any.
    pub fn destroy(self) -> (release: Option<MemoryRelease>)
        ensures
            match self.device_memory {
                Some(m) => release == Some(
                    MemoryRelease {
                        logical_device: m.logical_device,
                        memory: m.handle,
                        unmap: m.is_mapped(),
                    },
                ),
                None => release is None,
            },
    {
        match self.device_memory {
            Some(m) => Some(m.destroy()),
            None => None,
        }
    }
}

/// An image with the memory that is bound to it.
#[derive(Debug)]
pub struct VulkanImageMem {
    pub logical_device: VkDevice,
    pub handle: VkImage,
    pub img_type: VkImageType,
    pub format: VkFormat,
    pub dimensions: VkExtent3D,
    pub mipmap_lvl: u32,
    pub layer_num: u32,
    pub sample_count: VkSampleCountFlagBits,
    pub usage: VkImageUsageFlags,
    pub device_memory: Option<VulkanDeviceMemory>,
    pub view: VkImageView,
}

impl VulkanImageMem {
    /// What image creation is asked for: an exclusive, optimally tiled
    /// image in the undefined layout.
    pub open spec fn create_info(
        img_type: VkImageType,
        format: VkFormat,
        dimensions: VkExtent3D,
        mipmap_lvl: u32,
        layer_num: u32,
        sample_count: VkSampleCountFlagBits,
        usage: VkImageUsageFlags,
    ) -> VkImageCreateInfo {
        VkImageCreateInfo {
            flags: 0,
            imageType: img_type,
            format,
            extent: dimensions,
            mipLevels: mipmap_lvl,
            arrayLayers: layer_num,
            samples: sample_count,
            tiling: VkImageTiling_VK_IMAGE_TILING_OPTIMAL,
            usage,
            sharingMode: VkSharingMode_VK_SHARING_MODE_EXCLUSIVE,
            queueFamilyIndexCount: 0,
            initialLayout: VkImageLayout_VK_IMAGE_LAYOUT_UNDEFINED,
        }
    }

    /// Builds the block that image creation is called with.
    pub fn image_create_info(
        img_type: VkImageType,
        format: VkFormat,
        dimensions: VkExtent3D,
        mipmap_lvl: u32,
        layer_num: u32,
        sample_count: VkSampleCountFlagBits,
        usage: VkImageUsageFlags,
    ) -> (info: VkImageCreateInfo)
        ensures
            info == Self::create_info(
                img_type,
                format,
                dimensions,
                mipmap_lvl,
                layer_num,
                sample_count,
                usage,
            ),
    {
        VkImageCreateInfo {
            flags: 0,
            imageType: img_type,
            format,
            extent: dimensions,
            mipLevels: mipmap_lvl,
            arrayLayers: layer_num,
            samples: sample_count,
            tiling: VkImageTiling_VK_IMAGE_TILING_OPTIMAL,
            usage,
            sharingMode: VkSharingMode_VK_SHARING_MODE_EXCLUSIVE,
            queueFamilyIndexCount: 0,
            initialLayout: VkImageLayout_VK_IMAGE_LAYOUT_UNDEFINED,
        }
    }

    /// The memory properties that an image's memory is allocated with:
    /// none is asked for.
    pub fn memory_properties() -> (properties: VkMemoryPropertyFlagBits)
        ensures
            properties == 0,
    {
        0
    }

    /// Takes the reply of image creation. The image has no memory yet:
    /// memory is allocated and bound next, with
    /// [`VulkanImageMem::allocate_memory`].
    pub fn new(
        logical_device: &VulkanLogicalDevice,
        img_type: VkImageType,
        format: VkFormat,
        dimensions: VkExtent3D,
        mipmap_lvl: u32,
        layer_num: u32,
        sample_count: VkSampleCountFlagBits,
        usage: VkImageUsageFlags,
        result: VkResult,
        handle: VkImage,
    ) -> (image: Result<Self, VulkanMemError>)
        ensures
            image is Err <==> result != VkResult_VK_SUCCESS,
            image matches Err(e) ==> e == VulkanMemError::COULDNT_ALLOCATE_IMAGE,
            image matches Ok(i) ==> {
                &&& i.logical_device == logical_device.device
                &&& i.handle == handle
                &&& i.img_type == img_type
                &&& i.format == format
                &&& i.dimensions == dimensions
                &&& i.mipmap_lvl == mipmap_lvl
                &&& i.layer_num == layer_num
                &&& i.sample_count == sample_count
                &&& i.usage == usage
                &&& i.device_memory is None
                &&& i.view == VK_NULL_HANDLE
            },
    {
        if result != VkResult_VK_SUCCESS {
            return Err(VulkanMemError::COULDNT_ALLOCATE_IMAGE);
        }
        Ok(
            VulkanImageMem {
                logical_device: logical_device.device,
                handle,
                img_type,
                format,
                dimensions,
                mipmap_lvl,
                layer_num,
                sample_count,
                usage,
                device_memory: None,
                view: VK_NULL_HANDLE,
            },
        )
    }

    /// True when memory is bound to the image. An image without memory is
    /// not usable for transfers or as a barrier target.
    pub open spec fn is_bound(self) -> bool {
        self.device_memory is Some
    }

    /// Takes the replies of the allocation and of the binding call.
    ///
    /// Memory is bound once: an image that has memory takes no other.
    /// Binding also fails when the allocation fails (see
    /// [`VulkanDeviceMemory::new`]) or, with its own error, when the
    /// binding call failed; the binding reply is not looked at when the
    /// allocation failed. On success the image owns the memory.
    pub fn allocate_memory(
        &mut self,
        logical_device: &VulkanLogicalDevice,
        mem_req: VkMemoryRequirements,
        mem_props: VkMemoryPropertyFlagBits,
        result: VkResult,
        memory: VkDeviceMemory,
        bind_result: VkResult,
    ) -> (bound: Result<(), VulkanMemError>)
        ensures
            bound is Ok <==> old(self).device_memory is None && some_type_fits(
                logical_device.memory_types@,
                mem_req.memoryTypeBits,
                mem_props,
            ) && result == VkResult_VK_SUCCESS && memory != VK_NULL_HANDLE && bind_result
                == VkResult_VK_SUCCESS,
            bound matches Err(e) ==> *final(self) == *old(self) && if old(self).device_memory is None
                && some_type_fits(
                logical_device.memory_types@,
                mem_req.memoryTypeBits,
                mem_props,
            ) && result == VkResult_VK_SUCCESS && memory != VK_NULL_HANDLE {
                e == VulkanMemError::COULDNT_BIND_IMAGE_MEMORY
            } else {
                e == VulkanMemError::COULDNT_ALLOCATE_DEVICE_MEMORY
            },
            bound is Ok ==> {
                &&& final(self).device_memory matches Some(m) && (m.logical_device
                    == logical_device.device && m.handle == memory && m.size == mem_req.size
                    && m.properties == mem_props && m.data_region == 0
                    && m.flushable_memory@.len() == 0)
                &&& final(self).logical_device == old(self).logical_device
                &&& final(self).handle == old(self).handle
                &&& final(self).img_type == old(self).img_type
                &&& final(self).format == old(self).format
                &&& final(self).dimensions == old(self).dimensions
                &&& final(self).mipmap_lvl == old(self).mipmap_lvl
                &&& final(self).layer_num == old(self).layer_num
                &&& final(self).sample_count == old(self).sample_count
                &&& final(self).usage == old(self).usage
                &&& final(self).view == old(self).view
            },
    {
        if self.device_memory.is_some() {
            return Err(VulkanMemError::COULDNT_ALLOCATE_DEVICE_MEMORY);
        }
        let device_memory = match VulkanDeviceMemory::new(
            logical_device,
            &mem_req,
            mem_props,
            result,
            memory,
        ) {
            Ok(m) => m,
            Err(e) => {
                return Err(e);
            },
        };
        if bind_result != VkResult_VK_SUCCESS {
            return Err(VulkanMemError::COULDNT_BIND_IMAGE_MEMORY);
        }
        self.device_memory = Some(device_memory);
        Ok(())
    }

    /// Builds the barriers for a list of image transitions, one for each
    /// in order. With no transition there is nothing to record.
    pub fn create_image_barrier(
        &mut self,
        transitions: Vec<VulkanImageTransition>,
        cmd_buffer: VkCommandBuffer,
        generating_stages: VkPipelineStageFlags,
        consuming_stages: VkPipelineStageFlags,
    ) -> (command: Option<ImageBarrierCommand>)
        ensures
            *final(self) == *old(self),
            command is Some <==> transitions@.len() > 0,
            command matches Some(c) ==> {
                &&& c.cmd_buffer == cmd_buffer
                &&& c.generating_stages == generating_stages
                &&& c.consuming_stages == consuming_stages
                &&& c.barriers@ == transitions@.map_values(
                    |t: VulkanImageTransition| image_barrier_of(t),
                )
            },
    {
        let mut barriers: Vec<VkImageMemoryBarrier> = Vec::with_capacity(transitions.len());
        let mut i: usize = 0;
        while i < transitions.len()
            invariant
                i <= transitions@.len(),
                barriers@ == transitions@.take(i as int).map_values(
                    |t: VulkanImageTransition| image_barrier_of(t),
                ),
            decreases transitions@.len() - i,
        {
            let transition = transitions[i];
            barriers.push(
                VkImageMemoryBarrier {
                    srcAccessMask: transition.current_access,
                    dstAccessMask: transition.new_access,
                    oldLayout: transition.current_layout,
                    newLayout: transition.new_layout,
                    srcQueueFamilyIndex: transition.current_fam_queue,
                    dstQueueFamilyIndex: transition.new_fam_queue,
                    image: transition.image,
                    subresourceRange: VkImageSubresourceRange {
                        aspectMask: transition.aspect,
                        baseMipLevel: 0,
                        levelCount: VK_REMAINING_MIP_LEVELS,
                        baseArrayLayer: 0,
                        layerCount: VK_REMAINING_ARRAY_LAYERS,
                    },
                },
            );
            proof {
                assert(barriers@ =~= transitions@.take(i as int + 1).map_values(
                    |t: VulkanImageTransition| image_barrier_of(t),
                ));
            }
            i = i + 1;
        }
        proof {
            assert(transitions@.take(i as int) =~= transitions@);
        }
        if barriers.len() > 0 {
            Some(ImageBarrierCommand { cmd_buffer, generating_stages, consuming_stages, barriers })
        } else {
            None
        }
    }

    /// What view creation is asked for: a view of every mip level and
    /// array layer of the aspect, in the image's own format.
    pub open spec fn view_create_info(
        self,
        view_type: VkImageViewType,
        aspect: VkImageAspectFlags,
    ) -> VkImageViewCreateInfo {
        VkImageViewCreateInfo {
            flags: 0,
            image: self.handle,
            viewType: view_type,
            format: self.format,
            subresourceRange: VkImageSubresourceRange {
                aspectMask: aspect,
                baseMipLevel: 0,
                levelCount: VK_REMAINING_MIP_LEVELS,
                baseArrayLayer: 0,
                layerCount: VK_REMAINING_ARRAY_LAYERS,
            },
        }
    }

    /// Builds the block that view creation is called with.
    pub fn image_view_create_info(
        &self,
        view_type: VkImageViewType,
        aspect: VkImageAspectFlags,
    ) -> (info:
        VkImageViewCreateInfo)
        ensures
            info == self.view_create_info(view_type, aspect),
    {
        VkImageViewCreateInfo {
            flags: 0,
            image: self.handle,
            viewType: view_type,
            format: self.format,
            subresourceRange: VkImageSubresourceRange {
                aspectMask: aspect,
                baseMipLevel: 0,
                levelCount: VK_REMAINING_MIP_LEVELS,
                baseArrayLayer: 0,
                layerCount: VK_REMAINING_ARRAY_LAYERS,
            },
        }
    }

    /// Takes the reply of view creation: the view is kept when the call
    /// succeeded.
    pub fn create_image_view(&mut self, result: VkResult, view: VkImageView) -> (created: Result<
        (),
        VulkanMemError,
    >)
        ensures
            created is Err <==> result != VkResult_VK_SUCCESS,
            created matches Err(e) ==> e == VulkanMemError::FAILED_CREATING_IMAGE_VIEW
                && *final(self) == *old(self),
            created is Ok ==> *final(self) == (VulkanImageMem { view, ..*old(self) }),
    {
        if result != VkResult_VK_SUCCESS {
            return Err(VulkanMemError::FAILED_CREATING_IMAGE_VIEW);
        }
        self.view = view;
        Ok(())
    }

    /// Gives up the image: what is left to do for its memory, if it has
    /// any.
    pub fn destroy(self) -> (release: Option<MemoryRelease>)
        ensures
            match self.device_memory {
                Some(m) => release == Some(
                    MemoryRelease {
                        logical_device: m.logical_device,
                        memory: m.handle,
                        unmap: m.is_mapped(),
                    },
                ),
                None => release is None,
            },
    {
        match self.device_memory {
            Some(m) => Some(m.destroy()),
            None => None,
        }
    }
}

} // verus!
