use engine::entry_tables::{device_entries, instance_entries};
use engine::vulkan_window::load_extension_names;
use engine::logical_device::DeviceQueueRequest;
use engine::physical_device::PhysicalDeviceReport;
use engine::system_window::WindowParameters;
use engine::vulkan_bindings::{
    VkExtensionProperties, VkExtent2D, VkExtent3D, VkMemoryType, VkPhysicalDeviceProperties,
    VkQueueFamilyProperties, VkSurfaceCapabilitiesKHR, VkSurfaceFormatKHR,
};
use engine::vulkan_init::{
    EnumeratedDevice, InstanceReply, InstanceStep, VulkanInitError, VulkanInstance,
    VulkanLogicalDevice,
};
use engine::vulkan_mem::VulkanBufferMem;
use engine::vulkan_window::{AcquireReply, AcquireStep, VulkanSurface, VulkanSwapchain};

const GRAPHICS: u32 = 0x1;
const COMPUTE: u32 = 0x2;
const TRANSFER: u32 = 0x4;

fn named(name: &str) -> VkExtensionProperties {
    let mut bytes = name.as_bytes().to_vec();
    bytes.resize(256, 0);
    VkExtensionProperties { extensionName: bytes, specVersion: 1 }
}

fn family(flags: u32, count: u32) -> VkQueueFamilyProperties {
    VkQueueFamilyProperties {
        queueFlags: flags,
        queueCount: count,
        timestampValidBits: 64,
        minImageTransferGranularity: VkExtent3D { width: 1, height: 1, depth: 1 },
    }
}

fn machine(handle: u64, extensions: &[&str], families: Vec<VkQueueFamilyProperties>) -> EnumeratedDevice {
    EnumeratedDevice {
        handle,
        report: PhysicalDeviceReport {
            extensions_result: 0,
            extensions: extensions.iter().map(|n| named(n)).collect(),
            features: 0,
            properties: VkPhysicalDeviceProperties {
                apiVersion: 4194304,
                driverVersion: 1,
                vendorID: 0x10DE,
                deviceID: 1,
                deviceType: 2,
                deviceName: b"gpu".to_vec(),
            },
            memory_types: vec![
                VkMemoryType { propertyFlags: 1, heapIndex: 0 },
                VkMemoryType { propertyFlags: 6, heapIndex: 1 },
            ],
            family_queues: families,
        },
    }
}

fn bootstrap() -> VulkanInstance {
    let desired = load_extension_names(&[b"VK_KHR_surface\0", b"VK_KHR_win32_surface\0"]);
    let mut instance = VulkanInstance::new(desired, true).unwrap();
    assert_eq!(instance.step, InstanceStep::LoadGlobalFunctions);
    instance
        .advance(InstanceReply::GlobalFunctions { exported: vec![0x10], global: vec![0x20, 0x21, 0x22] })
        .unwrap();
    instance
        .advance(InstanceReply::AvailableExtensions {
            result: 0,
            extensions: vec![
                named("VK_KHR_surface"),
                named("VK_KHR_win32_surface"),
                named("VK_EXT_debug_utils"),
            ],
        })
        .unwrap();
    assert_eq!(instance.instance_create_info().enabledExtensionCount, 2);
    instance.advance(InstanceReply::Instantiated { result: 0, instance: 0xA000 }).unwrap();
    let addresses = vec![0x30u64; instance_entries().len()];
    instance.advance(InstanceReply::InstanceFunctions { addresses }).unwrap();
    let step = instance
        .advance(InstanceReply::PhysicalDevices {
            result: 0,
            devices: vec![
                machine(1, &["VK_KHR_swapchain"], vec![family(TRANSFER, 2)]),
                machine(2, &["VK_KHR_maintenance1"], vec![family(GRAPHICS | COMPUTE, 1)]),
                machine(3, &["VK_KHR_swapchain"], vec![family(TRANSFER, 1), family(GRAPHICS | COMPUTE, 1)]),
                machine(4, &["VK_KHR_swapchain"], vec![family(GRAPHICS | COMPUTE, 8)]),
            ],
        })
        .unwrap();
    assert_eq!(step, InstanceStep::Ready);
    instance
}

#[test]
fn negotiated_device_gives_its_graphics_queue() {
    let mut instance = bootstrap();
    assert_eq!(instance.function_address("vkCreateWin32SurfaceKHR"), Some(0x30));
    let device_extensions = load_extension_names(&[b"VK_KHR_swapchain\0"]);
    let support = vec![vec![true], vec![true], vec![false, true], vec![true]];
    let mut device: VulkanLogicalDevice = instance
        .create_logical_device(device_extensions, &[GRAPHICS | COMPUTE], &support, 1)
        .unwrap();
    assert_eq!(device.physical_device, 2);
    assert_eq!(device.ph_device, 3);
    assert_eq!(device.demanded_queues.len(), 1);
    assert_eq!(device.demanded_queues[0].queueFamilyIndex, 1);
    assert_eq!(device.demanded_queues[0].queueCount, 1);
    assert_eq!(device.queues[0].priorities, vec![50]);
    assert_eq!(instance.physical_devices[2].presentation_queue_idx, 1);
    assert!(instance.physical_devices[2].supports_presentation);
    assert!(instance.physical_devices[3].desired_queues.is_empty());
    assert_eq!(device.device_create_info().enabledExtensionCount, 1);
    assert_eq!(device.create_logical_device(0, 0xD000), Ok(()));
    let addresses = vec![0x40u64; device_entries().len()];
    assert_eq!(device.load_device_functions(&addresses), Ok(()));
    assert_eq!(device.function_address("vkAcquireNextImageKHR"), Some(0x40));
    assert_eq!(
        device.get_device_queue(GRAPHICS, 0),
        Ok(DeviceQueueRequest { queueFamilyIndex: 1, queueIndex: 0 })
    );
    assert_eq!(device.get_device_queue(GRAPHICS, 1), Err(VulkanInitError::WRONG_DEVICE_QUEUE_INDEX));
    assert_eq!(device.destroy(), 0xD000);
    assert_eq!(instance.destroy(), 0xA000);
}

#[test]
fn bootstrap_names_a_missing_instance_extension() {
    let desired = load_extension_names(&[b"VK_KHR_surface\0", b"VK_KHR_win32_surface\0"]);
    let mut instance = VulkanInstance::new(desired, true).unwrap();
    instance
        .advance(InstanceReply::GlobalFunctions { exported: vec![0x10], global: vec![0x20, 0x21, 0x22] })
        .unwrap();
    let error = instance
        .advance(InstanceReply::AvailableExtensions { result: 0, extensions: vec![named("VK_KHR_surface")] })
        .unwrap_err();
    assert_eq!(error, VulkanInitError::UNAVAILABLE_EXTENSION(String::from("VK_KHR_win32_surface")));
    assert_eq!(error.to_string(), "Can't initiate this unavailable extensions: VK_KHR_win32_surface");
}

#[test]
fn window_is_configured_and_an_image_acquired() {
    let mut instance = bootstrap();
    let window = WindowParameters::new(String::from("Anvil"), 1, 2);
    let mut surface = VulkanSurface::new(&instance, window, 0, 0x5000).unwrap();
    let support = vec![vec![true], vec![true], vec![false, true], vec![true]];
    let mut device = instance
        .create_logical_device(load_extension_names(&[b"VK_KHR_swapchain\0"]), &[GRAPHICS | COMPUTE], &support, 1)
        .unwrap();
    device.create_logical_device(0, 0xD000).unwrap();
    let capabilities = VkSurfaceCapabilitiesKHR {
        minImageCount: 2,
        maxImageCount: 8,
        currentExtent: VkExtent2D { width: 0xFFFF_FFFF, height: 0xFFFF_FFFF },
        minImageExtent: VkExtent2D { width: 1, height: 1 },
        maxImageExtent: VkExtent2D { width: 16384, height: 16384 },
        maxImageArrayLayers: 1,
        supportedTransforms: 1,
        currentTransform: 1,
        supportedCompositeAlpha: 1,
        supportedUsageFlags: 0x1F,
    };
    let desired = VkSurfaceFormatKHR { format: 37, colorSpace: 0 };
    surface
        .configure_swapchain(
            &device,
            3,
            0x10,
            1,
            &desired,
            0,
            capabilities,
            0,
            vec![VkSurfaceFormatKHR { format: 44, colorSpace: 0 }, desired],
        )
        .unwrap();
    let info = VulkanSwapchain::create_info(&surface);
    assert_eq!(info.minImageCount, 3);
    assert_eq!(info.imageExtent, VkExtent2D { width: 1920, height: 1080 });
    assert_eq!(info.imageFormat, 37);
    assert_eq!(info.presentMode, 1);
    assert_eq!(surface.acquire_next_image(None), Ok(AcquireStep::Recreate));
    assert_eq!(surface.create_swapchain(0, 0x6000), Ok(None));
    surface.swapchain.as_mut().unwrap().load_swap_chain_images(0, vec![1, 2, 3]).unwrap();
    let reply = AcquireReply {
        semaphore_result: 0,
        semaphore: 7,
        fence_result: 0,
        fence: 8,
        acquire_result: 0,
        image_index: 2,
    };
    assert_eq!(surface.acquire_next_image(Some(reply)), Ok(AcquireStep::Acquired));
    assert_eq!(surface.swapchain.as_ref().unwrap().presentable_img_idx, 2);
    let release = surface.destroy();
    assert_eq!(release.swapchain, Some(0x6000));
}

#[test]
fn buffer_gets_host_visible_memory() {
    let mut instance = bootstrap();
    let support = vec![vec![true], vec![true], vec![false, true], vec![true]];
    let mut device = instance
        .create_logical_device(load_extension_names(&[b"VK_KHR_swapchain\0"]), &[GRAPHICS | COMPUTE], &support, 1)
        .unwrap();
    device.create_logical_device(0, 0xD000).unwrap();
    let mut buffer = VulkanBufferMem::new(&device, 100, 1, 0, 0xB000).unwrap();
    let requirement =
        engine::vulkan_bindings::VkMemoryRequirements { size: 128, alignment: 64, memoryTypeBits: 0b11 };
    let info = engine::vulkan_mem::VulkanDeviceMemory::allocation_info(
        &device,
        &requirement,
        VulkanBufferMem::memory_properties(),
    )
    .unwrap();
    assert_eq!(info.memoryTypeIndex, 1);
    assert_eq!(info.allocationSize, 128);
    buffer
        .allocate_memory(&device, &requirement, VulkanBufferMem::memory_properties(), 0, 0xC000, 0)
        .unwrap();
    assert_eq!(buffer.device_memory.as_ref().unwrap().handle, 0xC000);
}
