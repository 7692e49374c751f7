use engine::physical_device::{
    device_type_name, PhysicalDeviceReport, PhysicalDeviceVendorsId, VulkanPhysicalDevice,
};
use engine::vulkan_bindings::{
    VkExtensionProperties, VkExtent3D, VkMemoryType, VkPhysicalDeviceProperties,
    VkQueueFamilyProperties,
};
use engine::vulkan_init::VulkanInitError;

fn named(name: &str) -> VkExtensionProperties {
    let mut bytes = name.as_bytes().to_vec();
    bytes.resize(256, 0);
    VkExtensionProperties { extensionName: bytes, specVersion: 1 }
}

fn queues(flags: u32, count: u32) -> VkQueueFamilyProperties {
    VkQueueFamilyProperties {
        queueFlags: flags,
        queueCount: count,
        timestampValidBits: 0,
        minImageTransferGranularity: VkExtent3D { width: 1, height: 1, depth: 1 },
    }
}

fn props(name: &[u8], vendor: u32, device_type: u32) -> VkPhysicalDeviceProperties {
    VkPhysicalDeviceProperties {
        apiVersion: 1,
        driverVersion: 2,
        vendorID: vendor,
        deviceID: 3,
        deviceType: device_type,
        deviceName: name.to_vec(),
    }
}

fn report(result: i32, extensions: Vec<VkExtensionProperties>, families: Vec<VkQueueFamilyProperties>) -> PhysicalDeviceReport {
    PhysicalDeviceReport {
        extensions_result: result,
        extensions,
        features: 0b101,
        properties: props(b"gpu", 0x10DE, 2),
        memory_types: vec![VkMemoryType { propertyFlags: 2, heapIndex: 0 }],
        family_queues: families,
    }
}

#[test]
fn vendor_identifiers() {
    assert_eq!(PhysicalDeviceVendorsId::new(0x10DE), PhysicalDeviceVendorsId::NVIDIA);
    assert_eq!(PhysicalDeviceVendorsId::new(0x1002), PhysicalDeviceVendorsId::AMD);
    assert_eq!(PhysicalDeviceVendorsId::new(0x8086), PhysicalDeviceVendorsId::INTEL);
    assert_eq!(PhysicalDeviceVendorsId::new(0), PhysicalDeviceVendorsId::UNDEFINED_VENDOR);
    assert_eq!(PhysicalDeviceVendorsId::new(0x10DF), PhysicalDeviceVendorsId::UNDEFINED_VENDOR);
}

#[test]
fn vendor_names() {
    assert_eq!(PhysicalDeviceVendorsId::NVIDIA.name(), "Nvidia");
    assert_eq!(PhysicalDeviceVendorsId::AMD.name(), "Amd");
    assert_eq!(PhysicalDeviceVendorsId::INTEL.name(), "Intel");
    assert_eq!(PhysicalDeviceVendorsId::UNDEFINED_VENDOR.name(), "Undefined Vendor");
}

#[test]
fn device_type_names() {
    assert_eq!(device_type_name(2), "Discrete Gpu");
    assert_eq!(device_type_name(4), "CPU");
    assert_eq!(device_type_name(1), "Integrated Gpu");
    assert_eq!(device_type_name(0), "Undefined Device Type");
    assert_eq!(device_type_name(3), "Undefined Device Type");
}

#[test]
fn new_device_is_blank() {
    let device = VulkanPhysicalDevice::new(77);
    assert_eq!(device.ph_device, 77);
    assert!(device.extensions.is_empty());
    assert!(device.family_queues.is_empty());
    assert!(device.desired_queues.is_empty());
    assert!(device.mem_properties.is_empty());
    assert!(!device.supports_presentation);
    assert_eq!(device.presentation_queue_idx, -1);
    assert!(device.supported_presentation_modes.is_empty());
}

#[test]
fn load_extensions_needs_success_and_a_list() {
    let mut device = VulkanPhysicalDevice::new(1);
    assert_eq!(
        device.load_extensions(-3, vec![named("a")]),
        Err(VulkanInitError::UNAVAILABLE_PHYSICAL_DEVICE_EXTENSIONS)
    );
    assert!(device.extensions.is_empty());
    assert_eq!(
        device.load_extensions(0, Vec::new()),
        Err(VulkanInitError::UNAVAILABLE_PHYSICAL_DEVICE_EXTENSIONS)
    );
    assert_eq!(device.load_extensions(0, vec![named("a"), named("b")]), Ok(()));
    assert_eq!(device.extensions.len(), 2);
}

#[test]
fn load_family_queues_rejects_an_empty_list() {
    let mut device = VulkanPhysicalDevice::new(1);
    assert_eq!(device.load_family_queues(Vec::new()), Err(VulkanInitError::FAILED_TO_LIST_FAMILY_QUEUES));
    assert_eq!(device.load_family_queues(vec![queues(1, 1)]), Ok(()));
    assert_eq!(device.family_queues.len(), 1);
}

#[test]
fn load_presentation_modes_needs_success_and_a_list() {
    let mut device = VulkanPhysicalDevice::new(1);
    assert_eq!(
        device.load_presentation_modes(0, Vec::new()),
        Err(VulkanInitError::UNAVAILABLE_PRESENTATION_MODE)
    );
    assert_eq!(
        device.load_presentation_modes(1, vec![2]),
        Err(VulkanInitError::UNAVAILABLE_PRESENTATION_MODE)
    );
    assert_eq!(device.load_presentation_modes(0, vec![2, 1]), Ok(()));
    assert_eq!(device.supported_presentation_modes, vec![2, 1]);
}

#[test]
fn presentation_support_needs_success_and_true() {
    let device = VulkanPhysicalDevice::new(1);
    assert!(device.supports_presentation(0, 1));
    assert!(!device.supports_presentation(0, 0));
    assert!(!device.supports_presentation(-1, 1));
    assert!(!device.supports_presentation(0, 2));
}

#[test]
fn load_infos_loads_everything() {
    let mut device = VulkanPhysicalDevice::new(9);
    assert_eq!(device.load_infos(report(0, vec![named("x")], vec![queues(3, 2)])), Ok(()));
    assert_eq!(device.extensions.len(), 1);
    assert_eq!(device.features, 0b101);
    assert_eq!(device.properties.vendorID, 0x10DE);
    assert_eq!(device.mem_properties.len(), 1);
    assert_eq!(device.family_queues.len(), 1);
    assert_eq!(device.ph_device, 9);
}

#[test]
fn load_infos_stops_at_the_extensions() {
    let mut device = VulkanPhysicalDevice::new(9);
    assert_eq!(
        device.load_infos(report(0, Vec::new(), vec![queues(3, 2)])),
        Err(VulkanInitError::UNAVAILABLE_PHYSICAL_DEVICE_EXTENSIONS)
    );
    assert_eq!(device.features, 0);
    assert!(device.family_queues.is_empty());
    assert!(device.mem_properties.is_empty());
}

#[test]
fn load_infos_stops_at_the_families() {
    let mut device = VulkanPhysicalDevice::new(9);
    assert_eq!(
        device.load_infos(report(0, vec![named("x")], Vec::new())),
        Err(VulkanInitError::FAILED_TO_LIST_FAMILY_QUEUES)
    );
    assert_eq!(device.extensions.len(), 1);
    assert_eq!(device.features, 0b101);
    assert_eq!(device.mem_properties.len(), 1);
    assert!(device.family_queues.is_empty());
}

#[test]
fn desired_extensions_must_all_be_offered() {
    let mut device = VulkanPhysicalDevice::new(1);
    device.load_extensions(0, vec![named("VK_KHR_swapchain"), named("VK_KHR_maintenance1")]).unwrap();
    assert!(device.has_desired_extensions(&vec![String::from("VK_KHR_swapchain")]));
    assert!(device.has_desired_extensions(&Vec::new()));
    assert!(!device.has_desired_extensions(&vec![
        String::from("VK_KHR_swapchain"),
        String::from("VK_EXT_missing")
    ]));
    assert!(!device.has_desired_extensions(&vec![String::from("vk_khr_swapchain")]));
}

#[test]
fn desired_family_queues_record_assignments() {
    let mut device = VulkanPhysicalDevice::new(1);
    device.load_family_queues(vec![queues(0x4, 1), queues(0x3, 2)]).unwrap();
    assert!(device.has_desired_family_queues(&[0x3], &vec![false, true]));
    assert_eq!(device.desired_queues.len(), 1);
    assert_eq!(device.desired_queues[0].familyIndex, 1);
    assert_eq!(device.desired_queues[0].capability, 0x3);
    assert_eq!(device.desired_queues[0].priorities, vec![50, 50]);
    assert!(device.supports_presentation);
    assert_eq!(device.presentation_queue_idx, 1);
    assert_eq!(device.family_queues[1].queueCount, 2);
}

#[test]
fn desired_family_queues_fail_without_presentation() {
    let mut device = VulkanPhysicalDevice::new(1);
    device.load_family_queues(vec![queues(0x3, 2)]).unwrap();
    assert!(!device.has_desired_family_queues(&[0x1], &vec![false]));
    assert_eq!(device.desired_queues.len(), 1);
    assert!(!device.supports_presentation);
    assert_eq!(device.presentation_queue_idx, -1);
}

#[test]
fn desired_family_queues_fail_when_a_capability_is_unmatched() {
    let mut device = VulkanPhysicalDevice::new(1);
    device.load_family_queues(vec![queues(0x1, 1)]).unwrap();
    assert!(!device.has_desired_family_queues(&[0x1, 0x2], &vec![true]));
    assert_eq!(device.desired_queues.len(), 1);
    assert!(device.supports_presentation);
    assert_eq!(device.presentation_queue_idx, 0);
}

#[test]
fn list_extensions_gives_one_line_each() {
    let mut device = VulkanPhysicalDevice::new(1);
    device
        .load_extensions(
            0,
            vec![
                VkExtensionProperties { extensionName: b"one".to_vec(), specVersion: 1 },
                VkExtensionProperties { extensionName: b"two\0".to_vec(), specVersion: 1 },
            ],
        )
        .unwrap();
    assert_eq!(device.list_extensions(), vec![String::from("one"), String::from("two\0")]);
}

#[test]
fn describes_the_device() {
    let mut device = VulkanPhysicalDevice::new(1);
    device.load_properties(props(b"GeForce", 0x10DE, 2));
    assert_eq!(device.to_string(), "the physical device GeForce of type Discrete Gpu from Nvidia");
    device.load_properties(props(b"llvmpipe", 0x10005, 4));
    assert_eq!(device.to_string(), "the physical device llvmpipe of type CPU from Undefined Vendor");
    device.load_properties(props(b"Iris", 0x8086, 1));
    assert_eq!(device.to_string(), "the physical device Iris of type Integrated Gpu from Intel");
}
