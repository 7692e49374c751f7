//! The entry tables: which symbols each tier must resolve, and which
//! extension owns a symbol that is only present when the extension is on.
use vstd::prelude::*;
use crate::entry_points::{rows_of, EntryPoint, EntryRow, EntryTier};

verus! {

/// Name of the surface extension.
pub open spec fn surface_extension() -> Seq<char> {
    "VK_KHR_surface"@
}

/// Name of the platform surface extension.
pub open spec fn platform_surface_extension() -> Seq<char> {
    "VK_KHR_win32_surface"@
}

/// Name of the swapchain extension.
pub open spec fn swapchain_extension() -> Seq<char> {
    "VK_KHR_swapchain"@
}

/// Name of the surface extension.
pub fn surface_extension_name() -> (name: &'static str)
    ensures
        name@ == surface_extension(),
{
    "VK_KHR_surface"
}

/// Name of the platform surface extension.
pub fn platform_surface_extension_name() -> (name: &'static str)
    ensures
        name@ == platform_surface_extension(),
{
    "VK_KHR_win32_surface"
}

/// Name of the swapchain extension.
pub fn swapchain_extension_name() -> (name: &'static str)
    ensures
        name@ == swapchain_extension(),
{
    "VK_KHR_swapchain"
}

/// A row for a symbol that no extension owns.
pub open spec fn core_row(name: Seq<char>, tier: EntryTier) -> EntryRow {
    EntryRow { name, tier, extension: None }
}

/// A row for a symbol that an extension owns.
pub open spec fn owned_row(name: Seq<char>, tier: EntryTier, extension: Seq<char>) -> EntryRow {
    EntryRow { name, tier, extension: Some(extension) }
}

/// A row for a symbol that no extension owns.
pub fn core_entry(name: &'static str, tier: EntryTier) -> (entry: EntryPoint)
    ensures
        entry@ == core_row(name@, tier),
{
    EntryPoint { name, tier, extension: None }
}

/// A row for a symbol that an extension owns.
pub fn owned_entry(name: &'static str, tier: EntryTier, extension: &'static str) -> (entry:
    EntryPoint)
    ensures
        entry@ == owned_row(name@, tier, extension@),
{
    EntryPoint { name, tier, extension: Some(extension) }
}

/// The symbols read from the native library itself.
pub open spec fn exported_table() -> Seq<EntryRow> {
    seq![
        core_row("vkGetInstanceProcAddr"@, EntryTier::Exported),
    ]
}

/// The symbols read from the native library itself.
pub fn exported_entries() -> (table: Vec<EntryPoint>)
    ensures
        rows_of(table@) == exported_table(),
{
    let mut table: Vec<EntryPoint> = Vec::new();
    table.push(core_entry("vkGetInstanceProcAddr", EntryTier::Exported));
    proof {
        assert(rows_of(table@) =~= exported_table());
    }
    table
}

/// The entries looked up before any instance exists.
pub open spec fn global_table() -> Seq<EntryRow> {
    seq![
        core_row("vkEnumerateInstanceExtensionProperties"@, EntryTier::Global),
        core_row("vkEnumerateInstanceLayerProperties"@, EntryTier::Global),
        core_row("vkCreateInstance"@, EntryTier::Global),
    ]
}

/// The entries looked up before any instance exists.
pub fn global_entries() -> (table: Vec<EntryPoint>)
    ensures
        rows_of(table@) == global_table(),
{
    let mut table: Vec<EntryPoint> = Vec::new();
    table.push(core_entry("vkEnumerateInstanceExtensionProperties", EntryTier::Global));
    table.push(core_entry("vkEnumerateInstanceLayerProperties", EntryTier::Global));
    table.push(core_entry("vkCreateInstance", EntryTier::Global));
    proof {
        assert(rows_of(table@) =~= global_table());
    }
    table
}

/// The entries looked up for a created instance. Those that a surface
/// extension owns are wanted only when the instance enabled it.
pub open spec fn instance_table() -> Seq<EntryRow> {
    seq![
        core_row("vkDestroyInstance"@, EntryTier::Instance),
        core_row("vkEnumeratePhysicalDevices"@, EntryTier::Instance),
        core_row("vkEnumerateDeviceExtensionProperties"@, EntryTier::Instance),
        core_row("vkGetPhysicalDeviceProperties"@, EntryTier::Instance),
        core_row("vkGetPhysicalDeviceFeatures"@, EntryTier::Instance),
        core_row("vkGetPhysicalDeviceMemoryProperties"@, EntryTier::Instance),
        core_row("vkGetPhysicalDeviceQueueFamilyProperties"@, EntryTier::Instance),
        core_row("vkCreateDevice"@, EntryTier::Instance),
        core_row("vkGetDeviceProcAddr"@, EntryTier::Instance),
        owned_row(
            "vkGetPhysicalDeviceSurfaceSupportKHR"@,
            EntryTier::Instance,
            surface_extension(),
        ),
        owned_row(
            "vkGetPhysicalDeviceSurfaceCapabilitiesKHR"@,
            EntryTier::Instance,
            surface_extension(),
        ),
        owned_row(
            "vkGetPhysicalDeviceSurfaceFormatsKHR"@,
            EntryTier::Instance,
            surface_extension(),
        ),
        owned_row(
            "vkGetPhysicalDeviceSurfacePresentModesKHR"@,
            EntryTier::Instance,
            surface_extension(),
        ),
        owned_row("vkDestroySurfaceKHR"@, EntryTier::Instance, surface_extension()),
        owned_row("vkCreateWin32SurfaceKHR"@, EntryTier::Instance, platform_surface_extension()),
    ]
}

/// The entries looked up for a created instance. Those that a surface
/// extension owns are wanted only when the instance enabled it.
pub fn instance_entries() -> (table: Vec<EntryPoint>)
    ensures
        rows_of(table@) == instance_table(),
{
    let mut table: Vec<EntryPoint> = Vec::new();
    table.push(core_entry("vkDestroyInstance", EntryTier::Instance));
    table.push(core_entry("vkEnumeratePhysicalDevices", EntryTier::Instance));
    table.push(core_entry("vkEnumerateDeviceExtensionProperties", EntryTier::Instance));
    table.push(core_entry("vkGetPhysicalDeviceProperties", EntryTier::Instance));
    table.push(core_entry("vkGetPhysicalDeviceFeatures", EntryTier::Instance));
    table.push(core_entry("vkGetPhysicalDeviceMemoryProperties", EntryTier::Instance));
    table.push(core_entry("vkGetPhysicalDeviceQueueFamilyProperties", EntryTier::Instance));
    table.push(core_entry("vkCreateDevice", EntryTier::Instance));
    table.push(core_entry("vkGetDeviceProcAddr", EntryTier::Instance));
    table.push(
        owned_entry(
            "vkGetPhysicalDeviceSurfaceSupportKHR",
            EntryTier::Instance,
            surface_extension_name(),
        ),
    );
    table.push(
        owned_entry(
            "vkGetPhysicalDeviceSurfaceCapabilitiesKHR",
            EntryTier::Instance,
            surface_extension_name(),
        ),
    );
    table.push(
        owned_entry(
            "vkGetPhysicalDeviceSurfaceFormatsKHR",
            EntryTier::Instance,
            surface_extension_name(),
        ),
    );
    table.push(
        owned_entry(
            "vkGetPhysicalDeviceSurfacePresentModesKHR",
            EntryTier::Instance,
            surface_extension_name(),
        ),
    );
    table.push(owned_entry("vkDestroySurfaceKHR", EntryTier::Instance, surface_extension_name()));
    table.push(
        owned_entry(
            "vkCreateWin32SurfaceKHR",
            EntryTier::Instance,
            platform_surface_extension_name(),
        ),
    );
    proof {
        assert(rows_of(table@) =~= instance_table());
    }
    table
}

/// Device entries for queues and the device's own lifetime.
pub open spec fn device_core_table() -> Seq<EntryRow> {
    seq![
        core_row("vkGetDeviceQueue"@, EntryTier::Device),
        core_row("vkDeviceWaitIdle"@, EntryTier::Device),
        core_row("vkDestroyDevice"@, EntryTier::Device),
        core_row("vkQueueSubmit"@, EntryTier::Device),
        core_row("vkQueueWaitIdle"@, EntryTier::Device),
    ]
}

/// Device entries for queues and the device's own lifetime.
pub fn device_core_entries() -> (table: Vec<EntryPoint>)
    ensures
        rows_of(table@) == device_core_table(),
{
    let mut table: Vec<EntryPoint> = Vec::new();
    table.push(core_entry("vkGetDeviceQueue", EntryTier::Device));
    table.push(core_entry("vkDeviceWaitIdle", EntryTier::Device));
    table.push(core_entry("vkDestroyDevice", EntryTier::Device));
    table.push(core_entry("vkQueueSubmit", EntryTier::Device));
    table.push(core_entry("vkQueueWaitIdle", EntryTier::Device));
    proof {
        assert(rows_of(table@) =~= device_core_table());
    }
    table
}

/// Device entries for memory, buffers and images.
pub open spec fn device_memory_table() -> Seq<EntryRow> {
    seq![
        core_row("vkAllocateMemory"@, EntryTier::Device),
        core_row("vkMapMemory"@, EntryTier::Device),
        core_row("vkFlushMappedMemoryRanges"@, EntryTier::Device),
        core_row("vkUnmapMemory"@, EntryTier::Device),
        core_row("vkCreateBuffer"@, EntryTier::Device),
        core_row("vkGetBufferMemoryRequirements"@, EntryTier::Device),
        core_row("vkBindBufferMemory"@, EntryTier::Device),
        core_row("vkCreateBufferView"@, EntryTier::Device),
        core_row("vkCmdCopyBuffer"@, EntryTier::Device),
        core_row("vkCreateImage"@, EntryTier::Device),
        core_row("vkGetImageMemoryRequirements"@, EntryTier::Device),
        core_row("vkBindImageMemory"@, EntryTier::Device),
        core_row("vkCreateImageView"@, EntryTier::Device),
        core_row("vkCmdPipelineBarrier"@, EntryTier::Device),
    ]
}

/// Device entries for memory, buffers and images.
pub fn device_memory_entries() -> (table: Vec<EntryPoint>)
    ensures
        rows_of(table@) == device_memory_table(),
{
    let mut table: Vec<EntryPoint> = Vec::new();
    table.push(core_entry("vkAllocateMemory", EntryTier::Device));
    table.push(core_entry("vkMapMemory", EntryTier::Device));
    table.push(core_entry("vkFlushMappedMemoryRanges", EntryTier::Device));
    table.push(core_entry("vkUnmapMemory", EntryTier::Device));
    table.push(core_entry("vkCreateBuffer", EntryTier::Device));
    table.push(core_entry("vkGetBufferMemoryRequirements", EntryTier::Device));
    table.push(core_entry("vkBindBufferMemory", EntryTier::Device));
    table.push(core_entry("vkCreateBufferView", EntryTier::Device));
    table.push(core_entry("vkCmdCopyBuffer", EntryTier::Device));
    table.push(core_entry("vkCreateImage", EntryTier::Device));
    table.push(core_entry("vkGetImageMemoryRequirements", EntryTier::Device));
    table.push(core_entry("vkBindImageMemory", EntryTier::Device));
    table.push(core_entry("vkCreateImageView", EntryTier::Device));
    table.push(core_entry("vkCmdPipelineBarrier", EntryTier::Device));
    proof {
        assert(rows_of(table@) =~= device_memory_table());
    }
    table
}

/// Device entries for command pools, command buffers, semaphores and
/// fences.
pub open spec fn device_command_table() -> Seq<EntryRow> {
    seq![
        core_row("vkCreateCommandPool"@, EntryTier::Device),
        core_row("vkResetCommandPool"@, EntryTier::Device),
        core_row("vkDestroyCommandPool"@, EntryTier::Device),
        core_row("vkAllocateCommandBuffers"@, EntryTier::Device),
        core_row("vkFreeCommandBuffers"@, EntryTier::Device),
        core_row("vkBeginCommandBuffer"@, EntryTier::Device),
        core_row("vkEndCommandBuffer"@, EntryTier::Device),
        core_row("vkResetCommandBuffer"@, EntryTier::Device),
        core_row("vkCreateSemaphore"@, EntryTier::Device),
        core_row("vkDestroySemaphore"@, EntryTier::Device),
        core_row("vkCreateFence"@, EntryTier::Device),
        core_row("vkWaitForFences"@, EntryTier::Device),
        core_row("vkResetFences"@, EntryTier::Device),
        core_row("vkDestroyFence"@, EntryTier::Device),
    ]
}

/// Device entries for command pools, command buffers, semaphores and
/// fences.
pub fn device_command_entries() -> (table: Vec<EntryPoint>)
    ensures
        rows_of(table@) == device_command_table(),
{
    let mut table: Vec<EntryPoint> = Vec::new();
    table.push(core_entry("vkCreateCommandPool", EntryTier::Device));
    table.push(core_entry("vkResetCommandPool", EntryTier::Device));
    table.push(core_entry("vkDestroyCommandPool", EntryTier::Device));
    table.push(core_entry("vkAllocateCommandBuffers", EntryTier::Device));
    table.push(core_entry("vkFreeCommandBuffers", EntryTier::Device));
    table.push(core_entry("vkBeginCommandBuffer", EntryTier::Device));
    table.push(core_entry("vkEndCommandBuffer", EntryTier::Device));
    table.push(core_entry("vkResetCommandBuffer", EntryTier::Device));
    table.push(core_entry("vkCreateSemaphore", EntryTier::Device));
    table.push(core_entry("vkDestroySemaphore", EntryTier::Device));
    table.push(core_entry("vkCreateFence", EntryTier::Device));
    table.push(core_entry("vkWaitForFences", EntryTier::Device));
    table.push(core_entry("vkResetFences", EntryTier::Device));
    table.push(core_entry("vkDestroyFence", EntryTier::Device));
    proof {
        assert(rows_of(table@) =~= device_command_table());
    }
    table
}

/// Device entries that the swapchain extension owns.
pub open spec fn device_swapchain_table() -> Seq<EntryRow> {
    seq![
        owned_row("vkCreateSwapchainKHR"@, EntryTier::Device, swapchain_extension()),
        owned_row("vkGetSwapchainImagesKHR"@, EntryTier::Device, swapchain_extension()),
        owned_row("vkDestroySwapchainKHR"@, EntryTier::Device, swapchain_extension()),
        owned_row("vkAcquireNextImageKHR"@, EntryTier::Device, swapchain_extension()),
        owned_row("vkQueuePresentKHR"@, EntryTier::Device, swapchain_extension()),
    ]
}

/// Device entries that the swapchain extension owns.
pub fn device_swapchain_entries() -> (table: Vec<EntryPoint>)
    ensures
        rows_of(table@) == device_swapchain_table(),
{
    let mut table: Vec<EntryPoint> = Vec::new();
    table.push(owned_entry("vkCreateSwapchainKHR", EntryTier::Device, swapchain_extension_name()));
    table.push(
        owned_entry("vkGetSwapchainImagesKHR", EntryTier::Device, swapchain_extension_name()),
    );
    table.push(owned_entry("vkDestroySwapchainKHR", EntryTier::Device, swapchain_extension_name()));
    table.push(owned_entry("vkAcquireNextImageKHR", EntryTier::Device, swapchain_extension_name()));
    table.push(owned_entry("vkQueuePresentKHR", EntryTier::Device, swapchain_extension_name()));
    proof {
        assert(rows_of(table@) =~= device_swapchain_table());
    }
    table
}

/// The entries looked up for a created device: queues, memory, commands,
/// then the swapchain's.
pub open spec fn device_table() -> Seq<EntryRow> {
    device_core_table() + device_memory_table() + device_command_table()
        + device_swapchain_table()
}

/// The entries looked up for a created device.
pub fn device_entries() -> (table: Vec<EntryPoint>)
    ensures
        rows_of(table@) == device_table(),
{
    let mut table = device_core_entries();
    let mut memory = device_memory_entries();
    let mut command = device_command_entries();
    let mut swapchain = device_swapchain_entries();
    table.append(&mut memory);
    table.append(&mut command);
    table.append(&mut swapchain);
    proof {
        assert(rows_of(table@) =~= device_table());
    }
    table
}

/// Every row of a table belongs to `tier`.
pub open spec fn table_of_tier(table: Seq<EntryRow>, tier: EntryTier) -> bool {
    forall|i: int| 0 <= i < table.len() ==> (#[trigger] table[i]).tier == tier
}

/// No extension owns a row of the table.
pub open spec fn table_without_owners(table: Seq<EntryRow>) -> bool {
    forall|i: int| 0 <= i < table.len() ==> (#[trigger] table[i]).extension is None
}

/// Each table holds rows of its own tier only, and no extension owns an
/// exported or a global entry.
pub proof fn lemma_tables_by_tier()
    ensures
        table_of_tier(exported_table(), EntryTier::Exported),
        table_of_tier(global_table(), EntryTier::Global),
        table_of_tier(instance_table(), EntryTier::Instance),
        table_of_tier(device_table(), EntryTier::Device),
        table_without_owners(exported_table()),
        table_without_owners(global_table()),
{
}

} // verus!
