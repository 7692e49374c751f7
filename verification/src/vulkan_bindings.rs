//! Plain-value model of the native API: handles, result codes, flag bits
//! and the descriptor blocks that cross the boundary.
//!
//! A handle is the integer value of the native handle, zero for the null
//! handle. A flag word is the native 32-bit mask. Lists that the native API
//! writes through a count and a pointer are held as vectors.
use vstd::prelude::*;

verus! {

pub type VkFlags = u32;

pub type VkBool32 = u32;

pub type VkResult = i32;

pub type VkInstance = u64;

pub type VkPhysicalDevice = u64;

pub type VkDevice = u64;

pub type VkQueue = u64;

pub type VkSurfaceKHR = u64;

pub type VkSwapchainKHR = u64;

pub type VkImage = u64;

pub type VkImageView = u64;

pub type VkBuffer = u64;

pub type VkBufferView = u64;

pub type VkDeviceMemory = u64;

pub type VkCommandPool = u64;

pub type VkCommandBuffer = u64;

pub type VkSemaphore = u64;

pub type VkFence = u64;

pub type VkQueueFlags = VkFlags;

pub type VkMemoryPropertyFlags = VkFlags;

pub type VkMemoryPropertyFlagBits = VkFlags;

pub type VkAccessFlags = VkFlags;

pub type VkBufferUsageFlags = VkFlags;

pub type VkBufferUsageFlagBits = VkFlags;

pub type VkImageUsageFlags = VkFlags;

pub type VkImageAspectFlags = VkFlags;

pub type VkPipelineStageFlags = VkFlags;

pub type VkSurfaceTransformFlagsKHR = VkFlags;

pub type VkSampleCountFlagBits = VkFlags;

pub type VkFormat = u32;

pub type VkColorSpaceKHR = u32;

pub type VkPresentModeKHR = u32;

pub type VkImageLayout = u32;

pub type VkImageType = u32;

pub type VkImageViewType = u32;

pub type VkImageTiling = u32;

pub type VkSharingMode = u32;

pub type VkCommandBufferLevel = u32;

pub type VkPhysicalDeviceType = u32;

/// The null handle.
pub const VK_NULL_HANDLE: u64 = 0;

pub const VK_TRUE: VkBool32 = 1;

pub const VK_FALSE: VkBool32 = 0;

pub const VkResult_VK_SUCCESS: VkResult = 0;

pub const VkResult_VK_NOT_READY: VkResult = 1;

pub const VkResult_VK_TIMEOUT: VkResult = 2;

pub const VkResult_VK_SUBOPTIMAL_KHR: VkResult = 1000001003;

pub const VkResult_VK_ERROR_OUT_OF_DATE_KHR: VkResult = -1000001004;

pub const VkQueueFlagBits_VK_QUEUE_GRAPHICS_BIT: VkFlags = 0x1;

pub const VkQueueFlagBits_VK_QUEUE_COMPUTE_BIT: VkFlags = 0x2;

pub const VkQueueFlagBits_VK_QUEUE_TRANSFER_BIT: VkFlags = 0x4;

pub const VkQueueFlagBits_VK_QUEUE_SPARSE_BINDING_BIT: VkFlags = 0x8;

pub const VkMemoryPropertyFlagBits_VK_MEMORY_PROPERTY_DEVICE_LOCAL_BIT: VkFlags = 0x1;

pub const VkMemoryPropertyFlagBits_VK_MEMORY_PROPERTY_HOST_VISIBLE_BIT: VkFlags = 0x2;

pub const VkMemoryPropertyFlagBits_VK_MEMORY_PROPERTY_HOST_COHERENT_BIT: VkFlags = 0x4;

pub const VkMemoryPropertyFlagBits_VK_MEMORY_PROPERTY_HOST_CACHED_BIT: VkFlags = 0x8;

pub const VkBufferUsageFlagBits_VK_BUFFER_USAGE_TRANSFER_SRC_BIT: VkFlags = 0x1;

pub const VkBufferUsageFlagBits_VK_BUFFER_USAGE_TRANSFER_DST_BIT: VkFlags = 0x2;

pub const VkImageUsageFlagBits_VK_IMAGE_USAGE_TRANSFER_SRC_BIT: VkFlags = 0x1;

pub const VkImageUsageFlagBits_VK_IMAGE_USAGE_TRANSFER_DST_BIT: VkFlags = 0x2;

pub const VkImageUsageFlagBits_VK_IMAGE_USAGE_SAMPLED_BIT: VkFlags = 0x4;

pub const VkImageUsageFlagBits_VK_IMAGE_USAGE_COLOR_ATTACHMENT_BIT: VkFlags = 0x10;

pub const VkCommandPoolCreateFlagBits_VK_COMMAND_POOL_CREATE_TRANSIENT_BIT: VkFlags = 0x1;

pub const VkCommandPoolCreateFlagBits_VK_COMMAND_POOL_CREATE_RESET_COMMAND_BUFFER_BIT: VkFlags = 0x2;

pub const VkCommandPoolResetFlagBits_VK_COMMAND_POOL_RESET_RELEASE_RESOURCES_BIT: VkFlags = 0x1;

pub const VkCommandBufferResetFlagBits_VK_COMMAND_BUFFER_RESET_RELEASE_RESOURCES_BIT: VkFlags = 0x1;

pub const VkCommandBufferUsageFlagBits_VK_COMMAND_BUFFER_USAGE_ONE_TIME_SUBMIT_BIT: VkFlags = 0x1;

pub const VkCommandBufferLevel_VK_COMMAND_BUFFER_LEVEL_PRIMARY: VkCommandBufferLevel = 0;

pub const VkCommandBufferLevel_VK_COMMAND_BUFFER_LEVEL_SECONDARY: VkCommandBufferLevel = 1;

pub const VkSharingMode_VK_SHARING_MODE_EXCLUSIVE: VkSharingMode = 0;

pub const VkImageTiling_VK_IMAGE_TILING_OPTIMAL: VkImageTiling = 0;

pub const VkImageLayout_VK_IMAGE_LAYOUT_UNDEFINED: VkImageLayout = 0;

pub const VkImageType_VK_IMAGE_TYPE_2D: VkImageType = 1;

pub const VkImageViewType_VK_IMAGE_VIEW_TYPE_2D: VkImageViewType = 1;

pub const VkImageViewType_VK_IMAGE_VIEW_TYPE_CUBE: VkImageViewType = 3;

pub const VkFormat_VK_FORMAT_UNDEFINED: VkFormat = 0;

pub const VkFormat_VK_FORMAT_R8G8B8A8_UNORM: VkFormat = 37;

pub const VkFormat_VK_FORMAT_B8G8R8A8_UNORM: VkFormat = 44;

pub const VkColorSpaceKHR_VK_COLOR_SPACE_SRGB_NONLINEAR_KHR: VkColorSpaceKHR = 0;

pub const VkPresentModeKHR_VK_PRESENT_MODE_IMMEDIATE_KHR: VkPresentModeKHR = 0;

pub const VkPresentModeKHR_VK_PRESENT_MODE_MAILBOX_KHR: VkPresentModeKHR = 1;

pub const VkPresentModeKHR_VK_PRESENT_MODE_FIFO_KHR: VkPresentModeKHR = 2;

pub const VkSurfaceTransformFlagBitsKHR_VK_SURFACE_TRANSFORM_IDENTITY_BIT_KHR: VkFlags = 0x1;

pub const VkCompositeAlphaFlagBitsKHR_VK_COMPOSITE_ALPHA_OPAQUE_BIT_KHR: VkFlags = 0x1;

pub const VkPhysicalDeviceType_VK_PHYSICAL_DEVICE_TYPE_INTEGRATED_GPU: VkPhysicalDeviceType = 1;

pub const VkPhysicalDeviceType_VK_PHYSICAL_DEVICE_TYPE_DISCRETE_GPU: VkPhysicalDeviceType = 2;

pub const VkPhysicalDeviceType_VK_PHYSICAL_DEVICE_TYPE_CPU: VkPhysicalDeviceType = 4;

/// Size value that stands for "to the end of the resource".
pub const VK_WHOLE_SIZE: u64 = 0xFFFF_FFFF_FFFF_FFFF;

pub const VK_REMAINING_MIP_LEVELS: u32 = 0xFFFF_FFFF;

pub const VK_REMAINING_ARRAY_LAYERS: u32 = 0xFFFF_FFFF;

/// Largest number of memory types a device reports.
pub const VK_MAX_MEMORY_TYPES: u32 = 32;

/// Width that a surface reports when its extent is set by the swapchain.
pub const VK_UNDEFINED_EXTENT: u32 = 0xFFFF_FFFF;

/// True when the two flag words share at least one bit.
pub open spec fn flags_intersect(flags: VkFlags, wanted: VkFlags) -> bool {
    flags & wanted != 0
}

/// True when every bit of `wanted` is set in `flags`.
pub open spec fn flags_contain(flags: VkFlags, wanted: VkFlags) -> bool {
    flags & wanted == wanted
}

/// Tells whether two flag words share a bit.
pub fn intersects(flags: VkFlags, wanted: VkFlags) -> (r: bool)
    ensures
        r == flags_intersect(flags, wanted),
{
    flags & wanted != 0
}

/// Tells whether `flags` holds every bit of `wanted`.
pub fn contains_all(flags: VkFlags, wanted: VkFlags) -> (r: bool)
    ensures
        r == flags_contain(flags, wanted),
{
    flags & wanted == wanted
}

/// One extension as the native API reports it: the name is the reported
/// byte array, padded with NUL bytes.
#[derive(Debug)]
pub struct VkExtensionProperties {
    pub extensionName: Vec<u8>,
    pub specVersion: u32,
}

#[derive(Clone, Copy, Debug, PartialEq, Eq, Structural)]
pub struct VkExtent2D {
    pub width: u32,
    pub height: u32,
}

#[derive(Clone, Copy, Debug, PartialEq, Eq, Structural)]
pub struct VkExtent3D {
    pub width: u32,
    pub height: u32,
    pub depth: u32,
}

#[derive(Clone, Copy, Debug, PartialEq, Eq, Structural)]
pub struct VkQueueFamilyProperties {
    pub queueFlags: VkQueueFlags,
    pub queueCount: u32,
    pub timestampValidBits: u32,
    pub minImageTransferGranularity: VkExtent3D,
}

/// The property block of a physical device that this crate reads.
#[derive(Debug)]
pub struct VkPhysicalDeviceProperties {
    pub apiVersion: u32,
    pub driverVersion: u32,
    pub vendorID: u32,
    pub deviceID: u32,
    pub deviceType: VkPhysicalDeviceType,
    pub deviceName: Vec<u8>,
}

#[derive(Clone, Copy, Debug, PartialEq, Eq, Structural)]
pub struct VkMemoryType {
    pub propertyFlags: VkMemoryPropertyFlags,
    pub heapIndex: u32,
}

#[derive(Clone, Copy, Debug, PartialEq, Eq, Structural)]
pub struct VkMemoryRequirements {
    pub size: u64,
    pub alignment: u64,
    pub memoryTypeBits: u32,
}

#[derive(Clone, Copy, Debug, PartialEq, Eq, Structural)]
pub struct VkMemoryAllocateInfo {
    pub allocationSize: u64,
    pub memoryTypeIndex: u32,
}

#[derive(Clone, Copy, Debug, PartialEq, Eq, Structural)]
pub struct VkMappedMemoryRange {
    pub memory: VkDeviceMemory,
    pub offset: u64,
    pub size: u64,
}

#[derive(Clone, Copy, Debug, PartialEq, Eq, Structural)]
pub struct VkBufferCopy {
    pub srcOffset: u64,
    pub dstOffset: u64,
    pub size: u64,
}

#[derive(Clone, Copy, Debug, PartialEq, Eq, Structural)]
pub struct VkBufferCreateInfo {
    pub flags: VkFlags,
    pub size: u64,
    pub usage: VkBufferUsageFlags,
    pub sharingMode: VkSharingMode,
    pub queueFamilyIndexCount: u32,
}

#[derive(Clone, Copy, Debug, PartialEq, Eq, Structural)]
pub struct VkBufferViewCreateInfo {
    pub flags: VkFlags,
    pub buffer: VkBuffer,
    pub format: VkFormat,
    pub offset: u64,
    pub range: u64,
}

#[derive(Clone, Copy, Debug, PartialEq, Eq, Structural)]
pub struct VkBufferMemoryBarrier {
    pub srcAccessMask: VkAccessFlags,
    pub dstAccessMask: VkAccessFlags,
    pub srcQueueFamilyIndex: u32,
    pub dstQueueFamilyIndex: u32,
    pub buffer: VkBuffer,
    pub offset: u64,
    pub size: u64,
}

#[derive(Clone, Copy, Debug, PartialEq, Eq, Structural)]
pub struct VkImageSubresourceRange {
    pub aspectMask: VkImageAspectFlags,
    pub baseMipLevel: u32,
    pub levelCount: u32,
    pub baseArrayLayer: u32,
    pub layerCount: u32,
}

#[derive(Clone, Copy, Debug, PartialEq, Eq, Structural)]
pub struct VkImageMemoryBarrier {
    pub srcAccessMask: VkAccessFlags,
    pub dstAccessMask: VkAccessFlags,
    pub oldLayout: VkImageLayout,
    pub newLayout: VkImageLayout,
    pub srcQueueFamilyIndex: u32,
    pub dstQueueFamilyIndex: u32,
    pub image: VkImage,
    pub subresourceRange: VkImageSubresourceRange,
}

#[derive(Clone, Copy, Debug, PartialEq, Eq, Structural)]
pub struct VkImageCreateInfo {
    pub flags: VkFlags,
    pub imageType: VkImageType,
    pub format: VkFormat,
    pub extent: VkExtent3D,
    pub mipLevels: u32,
    pub arrayLayers: u32,
    pub samples: VkSampleCountFlagBits,
    pub tiling: VkImageTiling,
    pub usage: VkImageUsageFlags,
    pub sharingMode: VkSharingMode,
    pub queueFamilyIndexCount: u32,
    pub initialLayout: VkImageLayout,
}

#[derive(Clone, Copy, Debug, PartialEq, Eq, Structural)]
pub struct VkImageViewCreateInfo {
    pub flags: VkFlags,
    pub image: VkImage,
    pub viewType: VkImageViewType,
    pub format: VkFormat,
    pub subresourceRange: VkImageSubresourceRange,
}

#[derive(Clone, Copy, Debug, PartialEq, Eq, Structural)]
pub struct VkCommandPoolCreateInfo {
    pub flags: VkFlags,
    pub queueFamilyIndex: u32,
}

#[derive(Clone, Copy, Debug, PartialEq, Eq, Structural)]
pub struct VkCommandBufferAllocateInfo {
    pub commandPool: VkCommandPool,
    pub level: VkCommandBufferLevel,
    pub commandBufferCount: u32,
}

#[derive(Clone, Copy, Debug, PartialEq, Eq, Structural)]
pub struct VkCommandBufferBeginInfo {
    pub flags: VkFlags,
}

#[derive(Clone, Copy, Debug, PartialEq, Eq, Structural)]
pub struct VkSurfaceCapabilitiesKHR {
    pub minImageCount: u32,
    pub maxImageCount: u32,
    pub currentExtent: VkExtent2D,
    pub minImageExtent: VkExtent2D,
    pub maxImageExtent: VkExtent2D,
    pub maxImageArrayLayers: u32,
    pub supportedTransforms: VkSurfaceTransformFlagsKHR,
    pub currentTransform: VkSurfaceTransformFlagsKHR,
    pub supportedCompositeAlpha: VkFlags,
    pub supportedUsageFlags: VkImageUsageFlags,
}

#[derive(Clone, Copy, Debug, PartialEq, Eq, Structural)]
pub struct VkSurfaceFormatKHR {
    pub format: VkFormat,
    pub colorSpace: VkColorSpaceKHR,
}

#[derive(Clone, Copy, Debug, PartialEq, Eq, Structural)]
pub struct VkSwapchainCreateInfoKHR {
    pub flags: VkFlags,
    pub surface: VkSurfaceKHR,
    pub minImageCount: u32,
    pub imageFormat: VkFormat,
    pub imageColorSpace: VkColorSpaceKHR,
    pub imageExtent: VkExtent2D,
    pub imageArrayLayers: u32,
    pub imageUsage: VkImageUsageFlags,
    pub imageSharingMode: VkSharingMode,
    pub queueFamilyIndexCount: u32,
    pub preTransform: VkSurfaceTransformFlagsKHR,
    pub compositeAlpha: VkFlags,
    pub presentMode: VkPresentModeKHR,
    pub clipped: VkBool32,
    pub oldSwapchain: VkSwapchainKHR,
}

/// Version words that an instance is created with.
#[derive(Clone, Copy, Debug, PartialEq, Eq, Structural)]
pub struct VkApplicationInfo {
    pub applicationVersion: u32,
    pub engineVersion: u32,
    pub apiVersion: u32,
}

/// What instance creation is asked for. The extension names themselves
/// are those of the instance that builds the block.
#[derive(Clone, Copy, Debug, PartialEq, Eq, Structural)]
pub struct VkInstanceCreateInfo {
    pub flags: VkFlags,
    pub applicationInfo: VkApplicationInfo,
    pub enabledLayerCount: u32,
    pub enabledExtensionCount: u32,
}

/// One queue-create descriptor. The priorities are those of the queue
/// assignment at the same position.
#[derive(Clone, Copy, Debug, PartialEq, Eq, Structural)]
pub struct VkDeviceQueueCreateInfo {
    pub flags: VkFlags,
    pub queueFamilyIndex: u32,
    pub queueCount: u32,
}

/// What device creation is asked for. The queue descriptors and the
/// extension names are those of the device that builds the block.
#[derive(Clone, Copy, Debug, PartialEq, Eq, Structural)]
pub struct VkDeviceCreateInfo {
    pub flags: VkFlags,
    pub queueCreateInfoCount: u32,
    pub enabledLayerCount: u32,
    pub enabledExtensionCount: u32,
}

} // verus!
