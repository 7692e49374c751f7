use engine::entry_tables::{exported_entries, global_entries, instance_entries};
use engine::physical_device::PhysicalDeviceReport;
use engine::vulkan_bindings::{
    VkExtensionProperties, VkExtent3D, VkMemoryType, VkPhysicalDeviceProperties,
    VkQueueFamilyProperties,
};
use engine::vulkan_init::{
    application_name, entry_error, make_api_version, resolve_tier, EnumeratedDevice,
    InstanceReply, InstanceStep, VulkanInitError, VulkanInstance,
};
use engine::entry_points::{EntryPoint, EntryTier};

fn named(name: &str) -> VkExtensionProperties {
    let mut bytes = name.as_bytes().to_vec();
    bytes.resize(256, 0);
    VkExtensionProperties { extensionName: bytes, specVersion: 1 }
}

fn good_report() -> PhysicalDeviceReport {
    PhysicalDeviceReport {
        extensions_result: 0,
        extensions: vec![named("VK_KHR_swapchain")],
        features: 1,
        properties: VkPhysicalDeviceProperties {
            apiVersion: 0,
            driverVersion: 0,
            vendorID: 0x1002,
            deviceID: 1,
            deviceType: 2,
            deviceName: b"card".to_vec(),
        },
        memory_types: vec![VkMemoryType { propertyFlags: 1, heapIndex: 0 }],
        family_queues: vec![VkQueueFamilyProperties {
            queueFlags: 3,
            queueCount: 1,
            timestampValidBits: 0,
            minImageTransferGranularity: VkExtent3D { width: 1, height: 1, depth: 1 },
        }],
    }
}

fn fresh(desired: &[&str]) -> VulkanInstance {
    VulkanInstance::new(desired.iter().map(|s| s.to_string()).collect(), true).unwrap()
}

#[test]
fn api_version_packs_the_fields() {
    assert_eq!(make_api_version(0, 1, 0, 0), 4194304);
    assert_eq!(make_api_version(0, 1, 3, 250), (1 << 22) | (3 << 12) | 250);
    assert_eq!(make_api_version(1, 0, 0, 0), 1 << 29);
    assert_eq!(make_api_version(0, 0, 0, 0), 0);
    assert_eq!(make_api_version(7, 127, 1023, 4095), 0xFFFF_FFFF);
}

#[test]
fn application_is_called_anvil() {
    assert_eq!(application_name(), "anvil");
}

#[test]
fn every_error_has_its_text() {
    assert_eq!(VulkanInitError::UNLOADABLE_LIBRARY.to_string(), "Couldn't load vulkan library");
    assert_eq!(
        VulkanInitError::UNLOADABLE_EXTENSIONS.to_string(),
        "Couldn't load vulkan available extensions"
    );
    assert_eq!(
        VulkanInitError::UNAVAILABLE_EXTENSION(String::from("VK_X")).to_string(),
        "Can't initiate this unavailable extensions: VK_X"
    );
    assert_eq!(
        VulkanInitError::FAILED_INSTANTIATING_VULKAN.to_string(),
        "An Error Occured During Vulkan Instantiation"
    );
    assert_eq!(
        VulkanInitError::UNAVAILABLE_VULKAN_PHYSICAL_DEVICES.to_string(),
        "Couldn't load any vulkan capable physical device"
    );
    assert_eq!(
        VulkanInitError::UNAVAILABLE_PHYSICAL_DEVICE_EXTENSIONS.to_string(),
        "Couldn't load any physical device extension"
    );
    assert_eq!(
        VulkanInitError::FAILED_TO_LIST_FAMILY_QUEUES.to_string(),
        "Couldn't list any family queues on physical device"
    );
    assert_eq!(
        VulkanInitError::NO_VALID_DESIRED_FAMILY_QUEUE.to_string(),
        "Couldn't find valid desired family queue"
    );
    assert_eq!(
        VulkanInitError::UNAVAILABLE_DESIRED_PHYSICAL_DEVICE_EXTENSION(String::from("e")).to_string(),
        "Couldn't find this physical device extension: e"
    );
    assert_eq!(
        VulkanInitError::FAILED_INSTANTIATING_LOGICAL_DEVICE.to_string(),
        "Couldn't initiate Logical Device"
    );
    assert_eq!(VulkanInitError::WRONG_DEVICE_QUEUE_INDEX.to_string(), "Wrong Device queue index given");
    assert_eq!(
        VulkanInitError::NO_CAPABLE_PHYSICAL_DEVICE.to_string(),
        "No Capable Physical Device in this machine"
    );
    assert_eq!(
        VulkanInitError::UNAVAILABLE_PRESENTATION_MODE.to_string(),
        "Couldn't load any Presentation Mode"
    );
    assert_eq!(VulkanInitError::EXPORTED_VK_FUNCTION_ERROR(String::from("m1")).to_string(), "m1");
    assert_eq!(VulkanInitError::GLOBAL_VK_FUNCTION_ERROR(String::from("m2")).to_string(), "m2");
    assert_eq!(VulkanInitError::INSTANCE_VK_FUNCTION_ERROR(String::from("m3")).to_string(), "m3");
    assert_eq!(VulkanInitError::INSTANCE_VK_EXT_FUNCTION_ERROR(String::from("m4")).to_string(), "m4");
    assert_eq!(VulkanInitError::DEVICE_LEVEL_FUNCTION_ERROR(String::from("m5")).to_string(), "m5");
}

#[test]
fn entry_errors_carry_the_tier() {
    let e = |tier, extension| entry_error(&EntryPoint { name: "vkX", tier, extension });
    assert_eq!(
        e(EntryTier::Exported, None),
        VulkanInitError::EXPORTED_VK_FUNCTION_ERROR(String::from(
            "Couldn't load exported Vulkan function: vkX"
        ))
    );
    assert_eq!(
        e(EntryTier::Global, None),
        VulkanInitError::GLOBAL_VK_FUNCTION_ERROR(String::from("Couldn't load global vulkan function : vkX"))
    );
    assert_eq!(
        e(EntryTier::Instance, None),
        VulkanInitError::INSTANCE_VK_FUNCTION_ERROR(String::from(
            "Couldn't load instance level vulkan function: vkX"
        ))
    );
    assert_eq!(
        e(EntryTier::Instance, Some("ext")),
        VulkanInitError::INSTANCE_VK_EXT_FUNCTION_ERROR(String::from(
            "Couldn't load instance level extension vulkan function: vkX"
        ))
    );
    assert_eq!(
        e(EntryTier::Device, None),
        VulkanInitError::DEVICE_LEVEL_FUNCTION_ERROR(String::from(
            "Couldn't load device level vulkan function: vkX"
        ))
    );
    assert_eq!(
        e(EntryTier::Device, Some("ext")),
        VulkanInitError::DEVICE_LEVEL_FUNCTION_ERROR(String::from(
            "Couldn't load device level extension vulkan function: vkX"
        ))
    );
}

#[test]
fn resolve_tier_names_the_first_missing_symbol() {
    let table = global_entries();
    let error = resolve_tier(&table, &Vec::new(), &vec![5, 0, 0]).unwrap_err();
    assert_eq!(
        error,
        VulkanInitError::GLOBAL_VK_FUNCTION_ERROR(String::from(
            "Couldn't load global vulkan function : vkEnumerateInstanceLayerProperties"
        ))
    );
    assert_eq!(resolve_tier(&table, &Vec::new(), &vec![5, 6, 7]).unwrap().len(), 3);
}

#[test]
fn new_instance_needs_the_library() {
    assert_eq!(
        VulkanInstance::new(vec![String::from("a")], false).unwrap_err(),
        VulkanInitError::UNLOADABLE_LIBRARY
    );
    let instance = VulkanInstance::new(vec![String::from("a")], true).unwrap();
    assert_eq!(instance.enabled_extensions, vec![String::from("a")]);
    assert_eq!(instance.instance, 0);
    assert!(instance.functions.is_empty());
    assert!(instance.available_extensions.is_empty());
    assert!(instance.physical_devices.is_empty());
    assert_eq!(instance.step, InstanceStep::LoadGlobalFunctions);
}

#[test]
fn global_functions_load_in_table_order() {
    let mut instance = fresh(&[]);
    assert_eq!(instance.load_global_functions(&vec![11], &vec![21, 22, 23]), Ok(()));
    assert_eq!(instance.functions.len(), 4);
    assert_eq!(instance.function_address("vkGetInstanceProcAddr"), Some(11));
    assert_eq!(instance.function_address("vkCreateInstance"), Some(23));
    assert_eq!(instance.function_address("vkCreateDevice"), None);
}

#[test]
fn missing_exported_symbol_is_reported_before_global_ones() {
    let mut instance = fresh(&[]);
    assert_eq!(
        instance.load_global_functions(&vec![0], &vec![0, 0, 0]),
        Err(VulkanInitError::EXPORTED_VK_FUNCTION_ERROR(String::from(
            "Couldn't load exported Vulkan function: vkGetInstanceProcAddr"
        )))
    );
    assert!(instance.functions.is_empty());
    assert_eq!(
        instance.load_global_functions(&vec![1], &vec![2, 3, 0]),
        Err(VulkanInitError::GLOBAL_VK_FUNCTION_ERROR(String::from(
            "Couldn't load global vulkan function : vkCreateInstance"
        )))
    );
    assert!(instance.functions.is_empty());
}

#[test]
fn available_extensions_need_success_and_a_list() {
    let mut instance = fresh(&[]);
    assert_eq!(
        instance.load_available_extensions(0, Vec::new()),
        Err(VulkanInitError::UNLOADABLE_EXTENSIONS)
    );
    assert_eq!(
        instance.load_available_extensions(-1, vec![named("a")]),
        Err(VulkanInitError::UNLOADABLE_EXTENSIONS)
    );
    assert_eq!(instance.load_available_extensions(0, vec![named("a")]), Ok(()));
    assert_eq!(instance.available_extensions.len(), 1);
}

#[test]
fn validation_succeeds_when_every_extension_is_available() {
    let mut instance = fresh(&["VK_KHR_surface", "VK_KHR_win32_surface"]);
    instance
        .load_available_extensions(
            0,
            vec![named("VK_KHR_win32_surface"), named("VK_EXT_debug_utils"), named("VK_KHR_surface")],
        )
        .unwrap();
    assert_eq!(instance.extensions_are_valid(), Ok(()));
}

#[test]
fn validation_reports_the_first_missing_extension() {
    let mut instance = fresh(&["VK_KHR_surface", "VK_missing_one", "VK_missing_two"]);
    instance.load_available_extensions(0, vec![named("VK_KHR_surface")]).unwrap();
    assert_eq!(
        instance.extensions_are_valid(),
        Err(VulkanInitError::UNAVAILABLE_EXTENSION(String::from("VK_missing_one")))
    );
}

#[test]
fn validation_is_case_sensitive() {
    let mut instance = fresh(&["VK_KHR_surface"]);
    instance.load_available_extensions(0, vec![named("vk_khr_surface")]).unwrap();
    assert_eq!(
        instance.extensions_are_valid(),
        Err(VulkanInitError::UNAVAILABLE_EXTENSION(String::from("VK_KHR_surface")))
    );
}

#[test]
fn validation_of_no_extensions_succeeds() {
    let instance = fresh(&[]);
    assert_eq!(instance.extensions_are_valid(), Ok(()));
}

#[test]
fn list_available_extensions_gives_one_line_each() {
    let mut instance = fresh(&[]);
    instance
        .load_available_extensions(
            0,
            vec![VkExtensionProperties { extensionName: b"VK_a".to_vec(), specVersion: 1 }],
        )
        .unwrap();
    assert_eq!(instance.list_available_extensions(), vec![String::from("VK_a")]);
}

#[test]
fn instance_create_info_counts_the_extensions() {
    let instance = fresh(&["a", "b", "c"]);
    let info = instance.instance_create_info();
    assert_eq!(info.flags, 0);
    assert_eq!(info.enabledLayerCount, 0);
    assert_eq!(info.enabledExtensionCount, 3);
    assert_eq!(info.applicationInfo.applicationVersion, 4194304);
    assert_eq!(info.applicationInfo.engineVersion, 4194304);
    assert_eq!(info.applicationInfo.apiVersion, 4194304);
}

#[test]
fn instantiation_needs_success_and_a_handle() {
    let mut instance = fresh(&[]);
    assert_eq!(instance.instantiate_vulkan(-1, 5), Err(VulkanInitError::FAILED_INSTANTIATING_VULKAN));
    assert_eq!(instance.instantiate_vulkan(0, 0), Err(VulkanInitError::FAILED_INSTANTIATING_VULKAN));
    assert_eq!(instance.instance, 0);
    assert_eq!(instance.instantiate_vulkan(0, 5), Ok(()));
    assert_eq!(instance.instance, 5);
}

#[test]
fn instance_functions_tolerate_entries_of_extensions_that_are_off() {
    let mut instance = fresh(&[]);
    let mut addresses = vec![0u64; instance_entries().len()];
    for a in addresses.iter_mut().take(9) {
        *a = 100;
    }
    assert_eq!(instance.load_vulkan_instance_functions(&addresses), Ok(()));
    assert_eq!(instance.functions.len(), 9);
    assert_eq!(instance.function_address("vkDestroySurfaceKHR"), None);
}

#[test]
fn instance_functions_of_an_enabled_extension_must_resolve() {
    let mut instance = fresh(&["VK_KHR_surface"]);
    let mut addresses = vec![0u64; instance_entries().len()];
    for a in addresses.iter_mut().take(9) {
        *a = 100;
    }
    assert_eq!(
        instance.load_vulkan_instance_functions(&addresses),
        Err(VulkanInitError::INSTANCE_VK_EXT_FUNCTION_ERROR(String::from(
            "Couldn't load instance level extension vulkan function: vkGetPhysicalDeviceSurfaceSupportKHR"
        )))
    );
    for a in addresses.iter_mut().take(14) {
        *a = 100;
    }
    assert_eq!(instance.load_vulkan_instance_functions(&addresses), Ok(()));
    assert_eq!(instance.functions.len(), 14);
    assert_eq!(instance.function_address("vkDestroySurfaceKHR"), Some(100));
    assert_eq!(instance.function_address("vkCreateWin32SurfaceKHR"), None);
}

#[test]
fn missing_core_instance_function_is_reported() {
    let mut instance = fresh(&[]);
    let mut addresses = vec![1u64; instance_entries().len()];
    addresses[7] = 0;
    assert_eq!(
        instance.load_vulkan_instance_functions(&addresses),
        Err(VulkanInitError::INSTANCE_VK_FUNCTION_ERROR(String::from(
            "Couldn't load instance level vulkan function: vkCreateDevice"
        )))
    );
    assert!(instance.functions.is_empty());
}

#[test]
fn physical_devices_need_success_and_a_list() {
    let mut instance = fresh(&[]);
    assert_eq!(
        instance.load_physical_devices(0, Vec::new()),
        Err(VulkanInitError::UNAVAILABLE_VULKAN_PHYSICAL_DEVICES)
    );
    assert_eq!(
        instance.load_physical_devices(-4, vec![EnumeratedDevice { handle: 1, report: good_report() }]),
        Err(VulkanInitError::UNAVAILABLE_VULKAN_PHYSICAL_DEVICES)
    );
    assert!(instance.physical_devices.is_empty());
}

#[test]
fn physical_devices_are_loaded_in_enumeration_order() {
    let mut instance = fresh(&[]);
    let devices = vec![
        EnumeratedDevice { handle: 10, report: good_report() },
        EnumeratedDevice { handle: 20, report: good_report() },
    ];
    assert_eq!(instance.load_physical_devices(0, devices), Ok(()));
    assert_eq!(instance.physical_devices.len(), 2);
    assert_eq!(instance.physical_devices[0].ph_device, 10);
    assert_eq!(instance.physical_devices[1].ph_device, 20);
    assert_eq!(instance.physical_devices[1].family_queues.len(), 1);
    assert_eq!(instance.physical_devices[0].properties.vendorID, 0x1002);
}

#[test]
fn loading_stops_at_the_first_device_that_cannot_be_loaded() {
    let mut instance = fresh(&[]);
    let mut bad = good_report();
    bad.family_queues.clear();
    let devices = vec![
        EnumeratedDevice { handle: 10, report: good_report() },
        EnumeratedDevice { handle: 20, report: bad },
        EnumeratedDevice { handle: 30, report: good_report() },
    ];
    assert_eq!(
        instance.load_physical_devices(0, devices),
        Err(VulkanInitError::FAILED_TO_LIST_FAMILY_QUEUES)
    );
    assert_eq!(instance.physical_devices.len(), 2);
    assert_eq!(instance.physical_devices[1].ph_device, 20);
    assert_eq!(instance.physical_devices[1].extensions.len(), 1);
    assert!(instance.physical_devices[1].family_queues.is_empty());
}

#[test]
fn bootstrap_steps_come_in_order() {
    let mut instance = fresh(&["VK_KHR_surface"]);
    assert_eq!(
        instance.advance(InstanceReply::GlobalFunctions { exported: vec![1], global: vec![2, 3, 4] }),
        Ok(InstanceStep::LoadAvailableExtensions)
    );
    assert_eq!(
        instance.advance(InstanceReply::AvailableExtensions {
            result: 0,
            extensions: vec![named("VK_KHR_surface")]
        }),
        Ok(InstanceStep::InstantiateVulkan)
    );
    assert_eq!(
        instance.advance(InstanceReply::Instantiated { result: 0, instance: 99 }),
        Ok(InstanceStep::LoadInstanceFunctions)
    );
    let mut addresses = vec![7u64; instance_entries().len()];
    addresses[14] = 0;
    assert_eq!(
        instance.advance(InstanceReply::InstanceFunctions { addresses }),
        Ok(InstanceStep::LoadPhysicalDevices)
    );
    assert_eq!(
        instance.advance(InstanceReply::PhysicalDevices {
            result: 0,
            devices: vec![EnumeratedDevice { handle: 5, report: good_report() }]
        }),
        Ok(InstanceStep::Ready)
    );
    assert_eq!(instance.step, InstanceStep::Ready);
    assert_eq!(instance.instance, 99);
    assert_eq!(instance.physical_devices.len(), 1);
    assert_eq!(instance.functions.len(), 4 + 14);
}

#[test]
fn bootstrap_ignores_a_reply_out_of_turn() {
    let mut instance = fresh(&[]);
    assert_eq!(
        instance.advance(InstanceReply::Instantiated { result: 0, instance: 99 }),
        Ok(InstanceStep::LoadGlobalFunctions)
    );
    assert_eq!(instance.instance, 0);
    assert_eq!(instance.step, InstanceStep::LoadGlobalFunctions);
}

#[test]
fn bootstrap_stays_on_a_failed_step() {
    let mut instance = fresh(&["VK_KHR_surface", "VK_other"]);
    instance
        .advance(InstanceReply::GlobalFunctions { exported: vec![1], global: vec![2, 3, 4] })
        .unwrap();
    assert_eq!(
        instance.advance(InstanceReply::AvailableExtensions { result: 0, extensions: Vec::new() }),
        Err(VulkanInitError::UNLOADABLE_EXTENSIONS)
    );
    assert_eq!(instance.step, InstanceStep::LoadAvailableExtensions);
    assert_eq!(
        instance.advance(InstanceReply::AvailableExtensions {
            result: 0,
            extensions: vec![named("VK_KHR_surface")]
        }),
        Err(VulkanInitError::UNAVAILABLE_EXTENSION(String::from("VK_other")))
    );
    assert_eq!(instance.step, InstanceStep::LoadAvailableExtensions);
    assert_eq!(instance.available_extensions.len(), 1);
}

#[test]
fn bootstrap_is_done_when_ready() {
    let mut instance = fresh(&[]);
    instance.step = InstanceStep::Ready;
    assert_eq!(
        instance.advance(InstanceReply::Instantiated { result: 0, instance: 1 }),
        Ok(InstanceStep::Ready)
    );
    assert_eq!(instance.instance, 0);
}

#[test]
fn destroying_the_instance_hands_back_its_handle() {
    let mut instance = fresh(&[]);
    instance.instantiate_vulkan(0, 1234).unwrap();
    assert_eq!(instance.destroy(), 1234);
}

#[test]
fn exported_table_is_loaded_from_the_library() {
    assert_eq!(exported_entries().len(), 1);
}
