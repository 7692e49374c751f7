//! The presentation surface and its swapchain: how the swapchain is
//! configured from what the device supports, how it is replaced, and how
//! the next image is acquired.
use vstd::prelude::*;
pub use crate::extension_names::load_extension_names;
use crate::logical_device::VulkanLogicalDevice;
use crate::system_window::{WindowParameters, DISPLAY_HEIGHT, DISPLAY_WIDTH};
use crate::vulkan_bindings::{
    flags_contain, VkCompositeAlphaFlagBitsKHR_VK_COMPOSITE_ALPHA_OPAQUE_BIT_KHR, VkDevice,
    VkExtent2D, VkFence, VkFormat_VK_FORMAT_UNDEFINED, VkImage, VkImageUsageFlags,
    VkPhysicalDevice, VkPresentModeKHR, VkResult, VkResult_VK_SUBOPTIMAL_KHR,
    VkResult_VK_SUCCESS, VkSemaphore, VkSharingMode_VK_SHARING_MODE_EXCLUSIVE,
    VkSurfaceCapabilitiesKHR, VkSurfaceFormatKHR, VkSurfaceKHR, VkSurfaceTransformFlagsKHR,
    VkSwapchainCreateInfoKHR, VkSwapchainKHR, VK_NULL_HANDLE, VK_TRUE, VK_UNDEFINED_EXTENT,
};
use crate::vulkan_init::{VulkanInitError, VulkanInstance};
use crate::vulkan_synchro::VulkanSynchroError;

verus! {

/// What can go wrong with a surface and its swapchain.
#[derive(Debug, PartialEq, Eq)]
pub enum VulkanWindowError {
    DEFAULT_ERROR(String),
    CANT_LOAD_VULKAN_SURFACE,
    CANT_LOAD_SURFACE_CAPABILITIES,
    UNSUPPORTED_IMAGE_USAGE,
    CANT_LOAD_SURFACE_FORMATS,
    FAILED_CREATING_SWAPCHAIN,
    CANT_LOAD_SWAPCHAIN_IMAGE,
    UNUSABLE_SWAPCHAIN,
}

impl VulkanWindowError {
    /// The text that reports the error.
    pub open spec fn message(self) -> Seq<char> {
        match self {
            VulkanWindowError::DEFAULT_ERROR(s) => s@,
            VulkanWindowError::CANT_LOAD_VULKAN_SURFACE => "Couldn't a vulkan surface"@,
            VulkanWindowError::CANT_LOAD_SURFACE_CAPABILITIES =>
                "Couldn't load surface Capabilities"@,
            VulkanWindowError::UNSUPPORTED_IMAGE_USAGE => "Unsupported swapchain image usage"@,
            VulkanWindowError::CANT_LOAD_SURFACE_FORMATS => "Couldn't load surface formats"@,
            VulkanWindowError::FAILED_CREATING_SWAPCHAIN => "Couldn't create swapchain"@,
            VulkanWindowError::CANT_LOAD_SWAPCHAIN_IMAGE => "Couldn't load swapchain image"@,
            VulkanWindowError::UNUSABLE_SWAPCHAIN => ""@,
        }
    }

    /// The text that reports the error.
    pub fn to_string(&self) -> (text: String)
        ensures
            text@ == self.message(),
    {
        match self {
            VulkanWindowError::DEFAULT_ERROR(s) => s.clone(),
            VulkanWindowError::CANT_LOAD_VULKAN_SURFACE => String::from_str(
                "Couldn't a vulkan surface",
            ),
            VulkanWindowError::CANT_LOAD_SURFACE_CAPABILITIES => String::from_str(
                "Couldn't load surface Capabilities",
            ),
            VulkanWindowError::UNSUPPORTED_IMAGE_USAGE => String::from_str(
                "Unsupported swapchain image usage",
            ),
            VulkanWindowError::CANT_LOAD_SURFACE_FORMATS => String::from_str(
                "Couldn't load surface formats",
            ),
            VulkanWindowError::FAILED_CREATING_SWAPCHAIN => String::from_str(
                "Couldn't create swapchain",
            ),
            VulkanWindowError::CANT_LOAD_SWAPCHAIN_IMAGE => String::from_str(
                "Couldn't load swapchain image",
            ),
            VulkanWindowError::UNUSABLE_SWAPCHAIN => String::from_str(""),
        }
    }

    /// The window error that stands for a bootstrap error: one that
    /// carries its text.
    pub fn from_init(value: VulkanInitError) -> (error: Self)
        ensures
            error matches VulkanWindowError::DEFAULT_ERROR(text) && text@ == value.message(),
    {
        VulkanWindowError::DEFAULT_ERROR(value.to_string())
    }

    /// The window error that stands for a synchronization error: one that
    /// carries its text.
    pub fn from_synchro(value: VulkanSynchroError) -> (error: Self)
        ensures
            error matches VulkanWindowError::DEFAULT_ERROR(text) && text@ == value.message(),
    {
        VulkanWindowError::DEFAULT_ERROR(value.to_string())
    }
}

/// A semaphore handle.
#[derive(Clone, Copy, Debug, PartialEq, Eq, Structural)]
pub struct VulkanSemaphore {
    pub sem: VkSemaphore,
}

/// Longest wait for the next image, in nanoseconds.
pub const ACQUIRE_TIMEOUT: u64 = 2000000000;

/// How often acquisition is tried again after a failure before the
/// swapchain is given up as unusable.
pub const ACQUIRE_RETRY_LIMIT: u32 = 1;

/// What surface creation is asked for: the window's two handles.
#[derive(Clone, Copy, Debug, PartialEq, Eq, Structural)]
pub struct VkWin32SurfaceCreateInfoKHR {
    pub flags: u32,
    pub hinstance: u64,
    pub hwnd: u64,
}

/// The replies of one attempt to acquire an image: those of the creation
/// of the semaphore and of the fence, then that of the acquisition.
#[derive(Clone, Copy, Debug, PartialEq, Eq, Structural)]
pub struct AcquireReply {
    pub semaphore_result: VkResult,
    pub semaphore: VkSemaphore,
    pub fence_result: VkResult,
    pub fence: VkFence,
    pub acquire_result: VkResult,
    pub image_index: u32,
}

/// What there is to do after an attempt to acquire an image.
#[derive(Clone, Copy, Debug, PartialEq, Eq, Structural)]
pub enum AcquireStep {
    /// An image was acquired.
    Acquired,
    /// The swapchain has to be created anew from the current
    /// configuration, and acquisition tried again.
    Recreate,
}

/// What is left to do for a surface that is given up: destroy the
/// swapchain if there is one, then the surface, then the window.
#[derive(Debug)]
pub struct SurfaceRelease {
    pub window: WindowParameters,
    pub swapchain: Option<VkSwapchainKHR>,
    pub surface: VkSurfaceKHR,
}

/// The presentable images of a surface.
#[derive(Debug)]
pub struct VulkanSwapchain {
    pub surface: VkSurfaceKHR,
    pub logical_device: VkDevice,
    pub swapchain_handle: VkSwapchainKHR,
    pub swapchain_images: Vec<VkImage>,
    pub images_sem: VkSemaphore,
    pub images_fence: VkFence,
    /// Index of the image that was acquired last.
    pub presentable_img_idx: u32,
}

/// A presentation surface on a window, the swapchain configuration that
/// was negotiated for it, and its swapchain.
#[derive(Debug)]
pub struct VulkanSurface {
    pub window: WindowParameters,
    pub surface: VkSurfaceKHR,
    /// The device that the swapchain is made on, null until configured.
    pub logical_device: VkDevice,
    /// The physical device whose capabilities were negotiated.
    pub ph_device: VkPhysicalDevice,
    pub presentation_mode: VkPresentModeKHR,
    pub capabilites: VkSurfaceCapabilitiesKHR,
    pub swapchain_images_count: u32,
    pub swapchain_image_size: VkExtent2D,
    pub swapchain_image_usage: VkImageUsageFlags,
    pub swapchain_image_transform: VkSurfaceTransformFlagsKHR,
    pub surface_format: VkSurfaceFormatKHR,
    pub swapchain: Option<VulkanSwapchain>,
    /// Recreations asked for since the last image was acquired.
    pub acquire_retries: u32,
}

/// The image count to ask for: the desired one, cut down to the device's
/// maximum when the device has one. A maximum of zero means that there is
/// none.
pub open spec fn image_count_for(
    capabilities: VkSurfaceCapabilitiesKHR,
    desired_count: u32,
) -> u32 {
    if capabilities.maxImageCount > 0 && desired_count > capabilities.maxImageCount {
        capabilities.maxImageCount
    } else {
        desired_count
    }
}

/// `value` brought into the range from `min` to `max`; a value below
/// `min` becomes `min` even when `min` is above `max`.
pub open spec fn clamp_dimension(value: u32, min: u32, max: u32) -> u32 {
    if value < min {
        min
    } else if value > max {
        max
    } else {
        value
    }
}

/// A dimension brought into a range lies in the range, when the range is
/// not empty.
pub proof fn lemma_clamped_in_range(value: u32, min: u32, max: u32)
    requires
        min <= max,
    ensures
        min <= clamp_dimension(value, min, max) <= max,
        min <= value <= max ==> clamp_dimension(value, min, max) == value,
{
}

/// The image size to ask for: the surface's current extent, unless its
/// width is the undefined value; then the display size, brought into the
/// range of extents that the device allows.
pub open spec fn image_size_for(capabilities: VkSurfaceCapabilitiesKHR) -> VkExtent2D {
    if capabilities.currentExtent.width == VK_UNDEFINED_EXTENT {
        VkExtent2D {
            width: clamp_dimension(
                DISPLAY_WIDTH as u32,
                capabilities.minImageExtent.width,
                capabilities.maxImageExtent.width,
            ),
            height: clamp_dimension(
                DISPLAY_HEIGHT as u32,
                capabilities.minImageExtent.height,
                capabilities.maxImageExtent.height,
            ),
        }
    } else {
        capabilities.currentExtent
    }
}

/// The transform to ask for: the desired one when the device supports all
/// of it, else the surface's current transform.
pub open spec fn transform_for(
    capabilities: VkSurfaceCapabilitiesKHR,
    transform: VkSurfaceTransformFlagsKHR,
) -> VkSurfaceTransformFlagsKHR {
    if flags_contain(capabilities.supportedTransforms, transform) {
        transform
    } else {
        capabilities.currentTransform
    }
}

/// The list is the single entry that stands for "any format".
pub open spec fn is_undefined_format_list(available: Seq<VkSurfaceFormatKHR>) -> bool {
    available.len() == 1 && available[0].format == VkFormat_VK_FORMAT_UNDEFINED
}

/// Entry `i` is the first of the list that has the desired format.
pub open spec fn is_first_with_format(
    available: Seq<VkSurfaceFormatKHR>,
    desired: VkSurfaceFormatKHR,
    i: int,
) -> bool {
    &&& 0 <= i < available.len()
    &&& available[i].format == desired.format
    &&& forall|j: int| 0 <= j < i ==> (#[trigger] available[j]).format != desired.format
}

/// No entry of the list has the desired format.
pub open spec fn no_entry_with_format(
    available: Seq<VkSurfaceFormatKHR>,
    desired: VkSurfaceFormatKHR,
) -> bool {
    forall|j: int| 0 <= j < available.len() ==> (#[trigger] available[j]).format != desired.format
}

/// The surface format that is resolved from what is available, by
/// priority: the desired format when the list is empty or stands for "any
/// format"; the desired format when the list holds it, color space
/// included; the first entry with the desired format, with that entry's
/// color space; the list's first entry.
pub open spec fn format_resolved(
    available: Seq<VkSurfaceFormatKHR>,
    desired: VkSurfaceFormatKHR,
    resolved: VkSurfaceFormatKHR,
) -> bool {
    if available.len() == 0 || is_undefined_format_list(available) {
        resolved == desired
    } else if available.contains(desired) {
        resolved == desired
    } else if no_entry_with_format(available, desired) {
        resolved == available[0]
    } else {
        exists|i: int| is_first_with_format(available, desired, i) && resolved == #[trigger] available[i]
    }
}

/// Resolves the surface format from the available formats.
pub fn resolve_surface_format(
    available: &Vec<VkSurfaceFormatKHR>,
    desired: &VkSurfaceFormatKHR,
) -> (resolved:
    VkSurfaceFormatKHR)
    ensures
        format_resolved(available@, *desired, resolved),
{
    if available.len() == 0 {
        return *desired;
    }
    if available.len() == 1 && available[0].format == VkFormat_VK_FORMAT_UNDEFINED {
        return *desired;
    }
    let mut i: usize = 0;
    while i < available.len()
        invariant
            i <= available@.len(),
            available@.len() > 0,
            !is_undefined_format_list(available@),
            forall|j: int| 0 <= j < i ==> available@[j] != *desired,
        decreases available@.len() - i,
    {
        if available[i].format == desired.format && available[i].colorSpace == desired.colorSpace {
            proof {
                assert(available@[i as int] == *desired);
            }
            return *desired;
        }
        i = i + 1;
    }
    let mut k: usize = 0;
    while k < available.len()
        invariant
            k <= available@.len(),
            available@.len() > 0,
            !is_undefined_format_list(available@),
            !available@.contains(*desired),
            forall|j: int| 0 <= j < k ==> (#[trigger] available@[j]).format != desired.format,
        decreases available@.len() - k,
    {
        if available[k].format == desired.format {
            proof {
                assert(is_first_with_format(available@, *desired, k as int));
                assert(!no_entry_with_format(available@, *desired));
            }
            return available[k];
        }
        k = k + 1;
    }
    available[0]
}

/// Given the single entry that stands for "any format", the desired
/// format is resolved unchanged.
pub proof fn lemma_undefined_list_keeps_desired(
    available: Seq<VkSurfaceFormatKHR>,
    desired: VkSurfaceFormatKHR,
    resolved: VkSurfaceFormatKHR,
)
    requires
        is_undefined_format_list(available),
        format_resolved(available, desired, resolved),
    ensures
        resolved == desired,
{
}

/// Given a list that holds the desired format with its color space, that
/// exact match is resolved.
pub proof fn lemma_exact_match_resolved(
    available: Seq<VkSurfaceFormatKHR>,
    desired: VkSurfaceFormatKHR,
    resolved: VkSurfaceFormatKHR,
)
    requires
        available.contains(desired),
        format_resolved(available, desired, resolved),
    ensures
        resolved == desired,
        available.contains(resolved),
{
}

/// Given a list that holds the desired format only with other color
/// spaces, the first entry with that format is resolved, with the list's
/// own color space.
pub proof fn lemma_same_format_resolved(
    available: Seq<VkSurfaceFormatKHR>,
    desired: VkSurfaceFormatKHR,
    resolved: VkSurfaceFormatKHR,
    i: int,
)
    requires
        !is_undefined_format_list(available),
        !available.contains(desired),
        is_first_with_format(available, desired, i),
        format_resolved(available, desired, resolved),
    ensures
        resolved == available[i],
        resolved.format == desired.format,
        resolved.colorSpace != desired.colorSpace,
{
    assert(!no_entry_with_format(available, desired));
    let k = choose|k: int| is_first_with_format(available, desired, k) && resolved == available[k];
    if k < i {
        assert(available[k].format != desired.format);
    } else if i < k {
        assert(available[i].format != desired.format);
    }
    if resolved.colorSpace == desired.colorSpace {
        assert(available[i] == desired);
    }
}

/// Given a list without the desired format, other than the one that
/// stands for "any format", the list's first entry is resolved.
pub proof fn lemma_first_entry_resolved(
    available: Seq<VkSurfaceFormatKHR>,
    desired: VkSurfaceFormatKHR,
    resolved: VkSurfaceFormatKHR,
)
    requires
        available.len() > 0,
        !is_undefined_format_list(available),
        no_entry_with_format(available, desired),
        format_resolved(available, desired, resolved),
    ensures
        resolved == available[0],
{
    if available.contains(desired) {
        let p = choose|p: int| 0 <= p < available.len() && available[p] == desired;
        assert(available[p].format == desired.format);
    }
}

impl VulkanSwapchain {
    /// What swapchain creation is asked for: the surface's negotiated
    /// configuration, one array layer, exclusive sharing, opaque
    /// composition, clipping, and the swapchain that the surface holds as
    /// the one to replace.
    pub open spec fn creation_request(vk_surface: VulkanSurface) -> VkSwapchainCreateInfoKHR {
        VkSwapchainCreateInfoKHR {
            flags: 0,
            surface: vk_surface.surface,
            minImageCount: vk_surface.swapchain_images_count,
            imageFormat: vk_surface.surface_format.format,
            imageColorSpace: vk_surface.surface_format.colorSpace,
            imageExtent: vk_surface.swapchain_image_size,
            imageArrayLayers: 1,
            imageUsage: vk_surface.swapchain_image_usage,
            imageSharingMode: VkSharingMode_VK_SHARING_MODE_EXCLUSIVE,
            queueFamilyIndexCount: 0,
            preTransform: vk_surface.swapchain_image_transform,
            compositeAlpha: VkCompositeAlphaFlagBitsKHR_VK_COMPOSITE_ALPHA_OPAQUE_BIT_KHR,
            presentMode: vk_surface.presentation_mode,
            clipped: VK_TRUE,
            oldSwapchain: match vk_surface.swapchain {
                Some(s) => s.swapchain_handle,
                None => VK_NULL_HANDLE,
            },
        }
    }

    /// Builds the block that swapchain creation is called with.
    pub fn create_info(vk_surface: &VulkanSurface) -> (info: VkSwapchainCreateInfoKHR)
        ensures
            info == Self::creation_request(*vk_surface),
    {
        VkSwapchainCreateInfoKHR {
            flags: 0,
            surface: vk_surface.surface,
            minImageCount: vk_surface.swapchain_images_count,
            imageFormat: vk_surface.surface_format.format,
            imageColorSpace: vk_surface.surface_format.colorSpace,
            imageExtent: vk_surface.swapchain_image_size,
            imageArrayLayers: 1,
            imageUsage: vk_surface.swapchain_image_usage,
            imageSharingMode: VkSharingMode_VK_SHARING_MODE_EXCLUSIVE,
            queueFamilyIndexCount: 0,
            preTransform: vk_surface.swapchain_image_transform,
            compositeAlpha: VkCompositeAlphaFlagBitsKHR_VK_COMPOSITE_ALPHA_OPAQUE_BIT_KHR,
            presentMode: vk_surface.presentation_mode,
            clipped: VK_TRUE,
            oldSwapchain: match &vk_surface.swapchain {
                Some(s) => s.swapchain_handle,
                None => VK_NULL_HANDLE,
            },
        }
    }

    /// Takes the reply of swapchain creation. The swapchain has no images
    /// yet: they are loaded next, with
    /// [`VulkanSwapchain::load_swap_chain_images`].
    pub fn new(vk_surface: &VulkanSurface, result: VkResult, handle: VkSwapchainKHR) -> (swapchain:
        Result<Self, VulkanWindowError>)
        ensures
            swapchain is Err <==> result != VkResult_VK_SUCCESS,
            swapchain matches Err(e) ==> e == VulkanWindowError::FAILED_CREATING_SWAPCHAIN,
            swapchain matches Ok(s) ==> {
                &&& s.surface == vk_surface.surface
                &&& s.logical_device == vk_surface.logical_device
                &&& s.swapchain_handle == handle
                &&& s.swapchain_images@.len() == 0
                &&& s.images_sem == VK_NULL_HANDLE
                &&& s.images_fence == VK_NULL_HANDLE
                &&& s.presentable_img_idx == 0
            },
    {
        if result != VkResult_VK_SUCCESS {
            return Err(VulkanWindowError::FAILED_CREATING_SWAPCHAIN);
        }
        Ok(
            VulkanSwapchain {
                surface: vk_surface.surface,
                logical_device: vk_surface.logical_device,
                swapchain_handle: handle,
                swapchain_images: Vec::new(),
                images_sem: VK_NULL_HANDLE,
                images_fence: VK_NULL_HANDLE,
                presentable_img_idx: 0,
            },
        )
    }

    /// Takes the reply of the image enumeration: the images are kept when
    /// the call succeeded and reported at least one.
    pub fn load_swap_chain_images(&mut self, result: VkResult, images: Vec<VkImage>) -> (loaded:
        Result<(), VulkanWindowError>)
        ensures
            loaded is Err <==> (result != VkResult_VK_SUCCESS || images@.len() == 0),
            loaded matches Err(e) ==> e == VulkanWindowError::CANT_LOAD_SWAPCHAIN_IMAGE && *final(self)
                == *old(self),
            loaded is Ok ==> *final(self) == (VulkanSwapchain {
                swapchain_images: images,
                ..*old(self)
            }),
    {
        if result != VkResult_VK_SUCCESS || images.len() == 0 {
            return Err(VulkanWindowError::CANT_LOAD_SWAPCHAIN_IMAGE);
        }
        self.swapchain_images = images;
        Ok(())
    }

    /// The acquisition yielded an image: it succeeded, or it succeeded
    /// with a swapchain that no longer matches the surface exactly.
    pub open spec fn image_acquired(result: VkResult) -> bool {
        result == VkResult_VK_SUCCESS || result == VkResult_VK_SUBOPTIMAL_KHR
    }

    /// Every call of the attempt did what it was made for.
    pub open spec fn attempt_succeeded(reply: AcquireReply) -> bool {
        &&& reply.semaphore_result == VkResult_VK_SUCCESS
        &&& reply.fence_result == VkResult_VK_SUCCESS
        &&& Self::image_acquired(reply.acquire_result)
    }

    /// The swapchain after an attempt to acquire the next image: the
    /// semaphore and the fence are kept as far as they were created, and
    /// the image's index when the attempt succeeded.
    pub open spec fn after_attempt(self, reply: AcquireReply) -> Self {
        VulkanSwapchain {
            images_sem: if reply.semaphore_result == VkResult_VK_SUCCESS {
                reply.semaphore
            } else {
                self.images_sem
            },
            images_fence: if reply.semaphore_result == VkResult_VK_SUCCESS && reply.fence_result
                == VkResult_VK_SUCCESS {
                reply.fence
            } else {
                self.images_fence
            },
            presentable_img_idx: if Self::attempt_succeeded(reply) {
                reply.image_index
            } else {
                self.presentable_img_idx
            },
            ..self
        }
    }

    /// Takes the replies of one attempt to acquire the next image.
    ///
    /// A fresh semaphore and a fresh fence are created for the attempt and
    /// kept as far as they were created. The attempt fails with the text
    /// of the synchronization error when one of them could not be created,
    /// and as an unusable swapchain when the acquisition itself yielded no
    /// image, a timeout included. On success the image's index is kept.
    pub fn get_next_image(
        &mut self,
        reply: AcquireReply,
    ) -> (acquired: Result<(), VulkanWindowError>)
        ensures
            acquired is Ok <==> Self::attempt_succeeded(reply),
            acquired matches Err(e) ==> if reply.semaphore_result != VkResult_VK_SUCCESS {
                e matches VulkanWindowError::DEFAULT_ERROR(text) && text@
                    == VulkanSynchroError::FAILED_CREATING_SEMAPHORE.message()
            } else if reply.fence_result != VkResult_VK_SUCCESS {
                e matches VulkanWindowError::DEFAULT_ERROR(text) && text@
                    == VulkanSynchroError::FAILED_CREATING_FENCE.message()
            } else {
                e == VulkanWindowError::UNUSABLE_SWAPCHAIN
            },
            *final(self) == old(self).after_attempt(reply),
    {
        if reply.semaphore_result != VkResult_VK_SUCCESS {
            return Err(
                VulkanWindowError::from_synchro(VulkanSynchroError::FAILED_CREATING_SEMAPHORE),
            );
        }
        self.images_sem = reply.semaphore;
        if reply.fence_result != VkResult_VK_SUCCESS {
            return Err(VulkanWindowError::from_synchro(VulkanSynchroError::FAILED_CREATING_FENCE));
        }
        self.images_fence = reply.fence;
        if reply.acquire_result == VkResult_VK_SUCCESS || reply.acquire_result
            == VkResult_VK_SUBOPTIMAL_KHR {
            self.presentable_img_idx = reply.image_index;
            Ok(())
        } else {
            Err(VulkanWindowError::UNUSABLE_SWAPCHAIN)
        }
    }

    /// Gives up the swapchain. The handle returned is the one to destroy.
    pub fn destroy(self) -> (handle: VkSwapchainKHR)
        ensures
            handle == self.swapchain_handle,
    {
        self.swapchain_handle
    }
}

/// A surface's capabilities before any were loaded.
pub open spec fn no_capabilities() -> VkSurfaceCapabilitiesKHR {
    VkSurfaceCapabilitiesKHR {
        minImageCount: 0,
        maxImageCount: 0,
        currentExtent: VkExtent2D { width: 0, height: 0 },
        minImageExtent: VkExtent2D { width: 0, height: 0 },
        maxImageExtent: VkExtent2D { width: 0, height: 0 },
        maxImageArrayLayers: 0,
        supportedTransforms: 0,
        currentTransform: 0,
        supportedCompositeAlpha: 0,
        supportedUsageFlags: 0,
    }
}

impl VulkanSurface {
    /// What surface creation is asked for.
    pub fn surface_create_info(window: &WindowParameters) -> (info: VkWin32SurfaceCreateInfoKHR)
        ensures
            info == (VkWin32SurfaceCreateInfoKHR {
                flags: 0,
                hinstance: window.Hinstance,
                hwnd: window.Hwnd,
            }),
    {
        VkWin32SurfaceCreateInfoKHR { flags: 0, hinstance: window.Hinstance, hwnd: window.Hwnd }
    }

    /// Takes the reply of surface creation on a window: the surface is
    /// kept when the call succeeded and returned a handle. Nothing is
    /// configured yet.
    pub fn new(
        vk_instance: &VulkanInstance,
        window: WindowParameters,
        result: VkResult,
        surface: VkSurfaceKHR,
    ) -> (created: Result<Self, VulkanWindowError>)
        ensures
            created is Err <==> (result != VkResult_VK_SUCCESS || surface == VK_NULL_HANDLE),
            created matches Err(e) ==> e == VulkanWindowError::CANT_LOAD_VULKAN_SURFACE,
            created matches Ok(s) ==> {
                &&& s.window == window
                &&& s.surface == surface
                &&& s.logical_device == VK_NULL_HANDLE
                &&& s.ph_device == VK_NULL_HANDLE
                &&& s.presentation_mode == 0
                &&& s.capabilites == no_capabilities()
                &&& s.swapchain_images_count == 0
                &&& s.swapchain_image_size == (VkExtent2D { width: 0, height: 0 })
                &&& s.swapchain_image_usage == 0
                &&& s.swapchain_image_transform == 0
                &&& s.surface_format == (VkSurfaceFormatKHR { format: 0, colorSpace: 0 })
                &&& s.swapchain is None
                &&& s.acquire_retries == 0
            },
    {
        if result != VkResult_VK_SUCCESS || surface == VK_NULL_HANDLE {
            return Err(VulkanWindowError::CANT_LOAD_VULKAN_SURFACE);
        }
        Ok(
            VulkanSurface {
                window,
                surface,
                logical_device: VK_NULL_HANDLE,
                ph_device: VK_NULL_HANDLE,
                presentation_mode: 0,
                capabilites: VkSurfaceCapabilitiesKHR {
                    minImageCount: 0,
                    maxImageCount: 0,
                    currentExtent: VkExtent2D { width: 0, height: 0 },
                    minImageExtent: VkExtent2D { width: 0, height: 0 },
                    maxImageExtent: VkExtent2D { width: 0, height: 0 },
                    maxImageArrayLayers: 0,
                    supportedTransforms: 0,
                    currentTransform: 0,
                    supportedCompositeAlpha: 0,
                    supportedUsageFlags: 0,
                },
                swapchain_images_count: 0,
                swapchain_image_size: VkExtent2D { width: 0, height: 0 },
                swapchain_image_usage: 0,
                swapchain_image_transform: 0,
                surface_format: VkSurfaceFormatKHR { format: 0, colorSpace: 0 },
                swapchain: None,
                acquire_retries: 0,
            },
        )
    }

    /// Takes the reply of the capabilities query: the capabilities are
    /// kept when the call succeeded.
    pub fn load_surface_capabilities(
        &mut self,
        result: VkResult,
        capabilities: VkSurfaceCapabilitiesKHR,
    ) -> (loaded:
        Result<(), VulkanWindowError>)
        ensures
            loaded is Err <==> result != VkResult_VK_SUCCESS,
            loaded matches Err(e) ==> e == VulkanWindowError::CANT_LOAD_SURFACE_CAPABILITIES
                && *final(self) == *old(self),
            loaded is Ok ==> *final(self) == (VulkanSurface { capabilites: capabilities, ..*old(self) }),
    {
        if result != VkResult_VK_SUCCESS {
            return Err(VulkanWindowError::CANT_LOAD_SURFACE_CAPABILITIES);
        }
        self.capabilites = capabilities;
        Ok(())
    }

    /// Sets the image count: the desired one, cut down to the device's
    /// maximum when it has one.
    pub fn set_swapchain_image_count(&mut self, desired_count: u32)
        ensures
            *final(self) == (VulkanSurface {
                swapchain_images_count: image_count_for(old(self).capabilites, desired_count),
                ..*old(self)
            }),
    {
        if self.capabilites.maxImageCount > 0 && desired_count > self.capabilites.maxImageCount {
            self.swapchain_images_count = self.capabilites.maxImageCount;
        } else {
            self.swapchain_images_count = desired_count;
        }
    }

    /// Sets the image size from the capabilities: the current extent, or
    /// the display size brought into the allowed range when the current
    /// extent is undefined.
    pub fn set_swapchain_image_size(&mut self)
        ensures
            *final(self) == (VulkanSurface {
                swapchain_image_size: image_size_for(old(self).capabilites),
                ..*old(self)
            }),
    {
        let capabilities = self.capabilites;
        if capabilities.currentExtent.width == VK_UNDEFINED_EXTENT {
            let width: u32 = DISPLAY_WIDTH as u32;
            let height: u32 = DISPLAY_HEIGHT as u32;
            let clamped_width: u32 = if width < capabilities.minImageExtent.width {
                capabilities.minImageExtent.width
            } else if width > capabilities.maxImageExtent.width {
                capabilities.maxImageExtent.width
            } else {
                width
            };
            let clamped_height: u32 = if height < capabilities.minImageExtent.height {
                capabilities.minImageExtent.height
            } else if height > capabilities.maxImageExtent.height {
                capabilities.maxImageExtent.height
            } else {
                height
            };
            self.swapchain_image_size = VkExtent2D { width: clamped_width, height: clamped_height };
        } else {
            self.swapchain_image_size = capabilities.currentExtent;
        }
    }

    /// Sets the image usage, which the device must support in full.
    pub fn set_swapchain_image_usage(&mut self, desired_usage: VkImageUsageFlags) -> (set: Result<
        (),
        VulkanWindowError,
    >)
        ensures
            set is Ok <==> flags_contain(old(self).capabilites.supportedUsageFlags, desired_usage),
            set matches Err(e) ==> e == VulkanWindowError::UNSUPPORTED_IMAGE_USAGE && *final(self)
                == *old(self),
            set is Ok ==> *final(self) == (VulkanSurface {
                swapchain_image_usage: desired_usage,
                ..*old(self)
            }),
    {
        let usage = desired_usage & self.capabilites.supportedUsageFlags;
        proof {
            let supported = self.capabilites.supportedUsageFlags;
            assert(desired_usage & supported == supported & desired_usage) by (bit_vector);
        }
        if usage == desired_usage {
            self.swapchain_image_usage = usage;
            Ok(())
        } else {
            Err(VulkanWindowError::UNSUPPORTED_IMAGE_USAGE)
        }
    }

    /// Sets the transform: the desired one when the device supports all
    /// of it, else the surface's current transform.
    pub fn set_swapchain_image_transform(&mut self, transform: VkSurfaceTransformFlagsKHR)
        ensures
            *final(self) == (VulkanSurface {
                swapchain_image_transform: transform_for(old(self).capabilites, transform),
                ..*old(self)
            }),
    {
        let supported = self.capabilites.supportedTransforms;
        proof {
            assert(transform & supported == supported & transform) by (bit_vector);
        }
        if (transform & supported) == transform {
            self.swapchain_image_transform = transform;
        } else {
            self.swapchain_image_transform = self.capabilites.currentTransform;
        }
    }

    /// Takes the reply of the format enumeration: the formats, when the
    /// call succeeded and reported at least one.
    pub fn load_surface_formats(
        &self,
        result: VkResult,
        formats: Vec<VkSurfaceFormatKHR>,
    ) -> (loaded:
        Result<Vec<VkSurfaceFormatKHR>, VulkanWindowError>)
        ensures
            loaded is Err <==> (result != VkResult_VK_SUCCESS || formats@.len() == 0),
            loaded matches Err(e) ==> e == VulkanWindowError::CANT_LOAD_SURFACE_FORMATS,
            loaded matches Ok(f) ==> f == formats,
    {
        if result != VkResult_VK_SUCCESS || formats.len() == 0 {
            return Err(VulkanWindowError::CANT_LOAD_SURFACE_FORMATS);
        }
        Ok(formats)
    }

    /// Takes the reply of the format enumeration and sets the surface
    /// format that is resolved from it (see [`format_resolved`]).
    pub fn set_surface_format(
        &mut self,
        desired_format: &VkSurfaceFormatKHR,
        result: VkResult,
        formats: Vec<VkSurfaceFormatKHR>,
    ) -> (set: Result<(), VulkanWindowError>)
        ensures
            set is Err <==> (result != VkResult_VK_SUCCESS || formats@.len() == 0),
            set matches Err(e) ==> e == VulkanWindowError::CANT_LOAD_SURFACE_FORMATS && *final(self)
                == *old(self),
            set is Ok ==> format_resolved(formats@, *desired_format, final(self).surface_format)
                && *final(self) == (VulkanSurface {
                surface_format: final(self).surface_format,
                ..*old(self)
            }),
    {
        let available = match self.load_surface_formats(result, formats) {
            Ok(f) => f,
            Err(e) => {
                return Err(e);
            },
        };
        self.surface_format = resolve_surface_format(&available, desired_format);
        Ok(())
    }

    /// The surface once it is pointed at a device.
    pub open spec fn on_device(self, logical_device: VulkanLogicalDevice) -> Self {
        VulkanSurface {
            logical_device: logical_device.device,
            ph_device: logical_device.ph_device,
            presentation_mode: logical_device.presentation_mode,
            ..self
        }
    }

    /// The surface once capabilities are loaded and the image count and
    /// size are set from them.
    pub open spec fn with_capabilities(
        self,
        capabilities: VkSurfaceCapabilitiesKHR,
        image_count: u32,
    ) -> Self {
        VulkanSurface {
            capabilites: capabilities,
            swapchain_images_count: image_count_for(capabilities, image_count),
            swapchain_image_size: image_size_for(capabilities),
            ..self
        }
    }

    /// What configuring the swapchain does, step by step; each step that
    /// fails ends the configuration and keeps what the steps before it
    /// set.
    ///
    /// The surface is pointed at the device. The capabilities are loaded.
    /// The image count and the image size are set. The image usage is set,
    /// which the device must support in full. The transform is set. The
    /// surface format is resolved from the available formats.
    pub open spec fn swapchain_configured(
        before: Self,
        after: Self,
        logical_device: VulkanLogicalDevice,
        image_count: u32,
        image_usage: VkImageUsageFlags,
        image_transform: VkSurfaceTransformFlagsKHR,
        image_format: VkSurfaceFormatKHR,
        capabilities_result: VkResult,
        capabilities: VkSurfaceCapabilitiesKHR,
        formats_result: VkResult,
        formats: Seq<VkSurfaceFormatKHR>,
        configured: Result<(), VulkanWindowError>,
    ) -> bool {
        let pointed = before.on_device(logical_device);
        let sized = pointed.with_capabilities(capabilities, image_count);
        let used = VulkanSurface {
            swapchain_image_usage: image_usage,
            swapchain_image_transform: transform_for(capabilities, image_transform),
            ..sized
        };
        if capabilities_result != VkResult_VK_SUCCESS {
            after == pointed && configured == Err::<(), VulkanWindowError>(
                VulkanWindowError::CANT_LOAD_SURFACE_CAPABILITIES,
            )
        } else if !flags_contain(capabilities.supportedUsageFlags, image_usage) {
            after == sized && configured == Err::<(), VulkanWindowError>(
                VulkanWindowError::UNSUPPORTED_IMAGE_USAGE,
            )
        } else if formats_result != VkResult_VK_SUCCESS || formats.len() == 0 {
            after == used && configured == Err::<(), VulkanWindowError>(
                VulkanWindowError::CANT_LOAD_SURFACE_FORMATS,
            )
        } else {
            &&& configured is Ok
            &&& format_resolved(formats, image_format, after.surface_format)
            &&& after == (VulkanSurface { surface_format: after.surface_format, ..used })
        }
    }

    /// Configures the swapchain of the surface for a device, from the
    /// replies of the capabilities query and of the format enumeration
    /// (see [`VulkanSurface::swapchain_configured`]). The swapchain itself
    /// is created next, with [`VulkanSurface::create_swapchain`].
    pub fn configure_swapchain(
        &mut self,
        logical_device: &VulkanLogicalDevice,
        image_count: u32,
        image_usage: VkImageUsageFlags,
        image_transform: VkSurfaceTransformFlagsKHR,
        image_format: &VkSurfaceFormatKHR,
        capabilities_result: VkResult,
        capabilities: VkSurfaceCapabilitiesKHR,
        formats_result: VkResult,
        formats: Vec<VkSurfaceFormatKHR>,
    ) -> (configured: Result<(), VulkanWindowError>)
        ensures
            Self::swapchain_configured(
                *old(self),
                *final(self),
                *logical_device,
                image_count,
                image_usage,
                image_transform,
                *image_format,
                capabilities_result,
                capabilities,
                formats_result,
                formats@,
                configured,
            ),
    {
        self.logical_device = logical_device.device;
        self.ph_device = logical_device.ph_device;
        self.presentation_mode = logical_device.presentation_mode;
        match self.load_surface_capabilities(capabilities_result, capabilities) {
            Ok(_) => {},
            Err(e) => {
                return Err(e);
            },
        }
        self.set_swapchain_image_count(image_count);
        self.set_swapchain_image_size();
        match self.set_swapchain_image_usage(image_usage) {
            Ok(_) => {},
            Err(e) => {
                return Err(e);
            },
        }
        self.set_swapchain_image_transform(image_transform);
        match self.set_surface_format(image_format, formats_result, formats) {
            Ok(_) => {},
            Err(e) => {
                return Err(e);
            },
        }
        Ok(())
    }

    /// Takes the reply of swapchain creation.
    ///
    /// The call was made with the block of [`VulkanSwapchain::create_info`],
    /// which names the swapchain that the surface holds as the one to
    /// replace. When the call failed, the surface keeps what it held.
    /// When it succeeded, the surface holds the new swapchain, whose
    /// images are still to be loaded, and the handle returned is that of
    /// the swapchain it held before, which is to be destroyed now.
    pub fn create_swapchain(
        &mut self,
        result: VkResult,
        handle: VkSwapchainKHR,
    ) -> (replaced: Result<
        Option<VkSwapchainKHR>,
        VulkanWindowError,
    >)
        ensures
            replaced is Err <==> result != VkResult_VK_SUCCESS,
            replaced matches Err(e) ==> e == VulkanWindowError::FAILED_CREATING_SWAPCHAIN
                && *final(self) == *old(self),
            replaced matches Ok(previous) ==> {
                &&& previous == match old(self).swapchain {
                    Some(s) => Some(s.swapchain_handle),
                    None => None,
                }
                &&& final(self).swapchain matches Some(s) && ({
                    &&& s.surface == old(self).surface
                    &&& s.logical_device == old(self).logical_device
                    &&& s.swapchain_handle == handle
                    &&& s.swapchain_images@.len() == 0
                    &&& s.images_sem == VK_NULL_HANDLE
                    &&& s.images_fence == VK_NULL_HANDLE
                    &&& s.presentable_img_idx == 0
                })
                &&& *final(self) == (VulkanSurface { swapchain: final(self).swapchain, ..*old(self) })
            },
    {
        let created = match VulkanSwapchain::new(self, result, handle) {
            Ok(s) => s,
            Err(e) => {
                return Err(e);
            },
        };
        match self.swapchain.take() {
            Some(previous) => {
                let retired = previous.destroy();
                self.swapchain = Some(created);
                Ok(Some(retired))
            },
            None => {
                self.swapchain = Some(created);
                Ok(None)
            },
        }
    }

    /// An attempt was made on a swapchain and yielded an image.
    pub open spec fn attempt_acquired(self, reply: Option<AcquireReply>) -> bool {
        self.swapchain is Some && (reply matches Some(r) && VulkanSwapchain::attempt_succeeded(r))
    }

    /// The surface's swapchain after an attempt: what the attempt left of
    /// it when it was made on a swapchain, and untouched otherwise.
    pub open spec fn swapchain_after(self, reply: Option<AcquireReply>) -> Option<VulkanSwapchain> {
        match (self.swapchain, reply) {
            (Some(s), Some(r)) => Some(s.after_attempt(r)),
            (held, _) => held,
        }
    }

    /// The count of retries after an attempt: none after an image was
    /// acquired or after the swapchain was given up, one more otherwise.
    pub open spec fn retries_after(self, reply: Option<AcquireReply>) -> u32 {
        if self.attempt_acquired(reply) || self.acquire_retries >= ACQUIRE_RETRY_LIMIT {
            0
        } else {
            (self.acquire_retries + 1) as u32
        }
    }

    /// Takes the outcome of one attempt to acquire the next image.
    ///
    /// `reply` holds the replies of the attempt; there is none when the
    /// surface has no swapchain to try on. When an image was acquired, its
    /// index is kept and the count of retries starts anew. Otherwise the
    /// swapchain is to be created again from the current configuration and
    /// acquisition tried once more; when that retry fails too, the
    /// swapchain is unusable.
    pub fn acquire_next_image(&mut self, reply: Option<AcquireReply>) -> (step: Result<
        AcquireStep,
        VulkanWindowError,
    >)
        ensures
            step == if old(self).attempt_acquired(reply) {
                Ok::<AcquireStep, VulkanWindowError>(AcquireStep::Acquired)
            } else if old(self).acquire_retries < ACQUIRE_RETRY_LIMIT {
                Ok::<AcquireStep, VulkanWindowError>(AcquireStep::Recreate)
            } else {
                Err::<AcquireStep, VulkanWindowError>(VulkanWindowError::UNUSABLE_SWAPCHAIN)
            },
            *final(self) == (VulkanSurface {
                swapchain: old(self).swapchain_after(reply),
                acquire_retries: old(self).retries_after(reply),
                ..*old(self)
            }),
    {
        let mut acquired = false;
        match self.swapchain.take() {
            Some(swapchain) => {
                let mut swapchain = swapchain;
                match reply {
                    Some(r) => {
                        acquired = swapchain.get_next_image(r).is_ok();
                    },
                    None => {},
                }
                self.swapchain = Some(swapchain);
            },
            None => {},
        }
        if acquired {
            self.acquire_retries = 0;
            return Ok(AcquireStep::Acquired);
        }
        if self.acquire_retries >= ACQUIRE_RETRY_LIMIT {
            self.acquire_retries = 0;
            return Err(VulkanWindowError::UNUSABLE_SWAPCHAIN);
        }
        self.acquire_retries = self.acquire_retries + 1;
        Ok(AcquireStep::Recreate)
    }

    /// Gives up the surface: the swapchain to destroy, if there is one,
    /// then the surface, then the window.
    pub fn destroy(self) -> (release: SurfaceRelease)
        ensures
            release.window == self.window,
            release.surface == self.surface,
            release.swapchain == match self.swapchain {
                Some(s) => Some(s.swapchain_handle),
                None => None,
            },
    {
        let VulkanSurface { window, surface, swapchain, .. } = self;
        let handle = match swapchain {
            Some(s) => Some(s.destroy()),
            None => None,
        };
        SurfaceRelease { window, swapchain: handle, surface }
    }
}

} // verus!
