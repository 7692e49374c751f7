//! One enumerated physical device: what the native API reported of it, and
//! whether it satisfies a request.
use vstd::prelude::*;
use vstd::utf8::{decode_utf8, valid_utf8};
use crate::extension_names::{
    extension_lines, first_missing_extension, has_all_extensions, names_are_text, prefix_bytes,
    string_from_utf8,
};
use crate::queue_negotiation::{
    assignments_of, negotiate_queues, negotiation_of, negotiation_succeeded, NegotiationOutcome,
    QueueInfo,
};
use crate::vulkan_bindings::{
    VkBool32, VkExtensionProperties, VkMemoryType, VkPhysicalDevice, VkPhysicalDeviceProperties,
    VkPhysicalDeviceType_VK_PHYSICAL_DEVICE_TYPE_CPU,
    VkPhysicalDeviceType_VK_PHYSICAL_DEVICE_TYPE_DISCRETE_GPU,
    VkPhysicalDeviceType_VK_PHYSICAL_DEVICE_TYPE_INTEGRATED_GPU, VkPresentModeKHR,
    VkQueueFamilyProperties, VkQueueFlags, VkResult, VkResult_VK_SUCCESS, VK_TRUE,
};
use crate::vulkan_init::VulkanInitError;

verus! {

/// The vendors that a device's vendor identifier is told apart into.
#[derive(Clone, Copy, Debug, PartialEq, Eq, Structural)]
pub enum PhysicalDeviceVendorsId {
    NVIDIA,
    AMD,
    INTEL,
    UNDEFINED_VENDOR,
}

impl PhysicalDeviceVendorsId {
    /// The vendor that a PCI vendor identifier names.
    pub fn new(id: u32) -> (vendor: Self)
        ensures
            id == 0x10DE ==> vendor == PhysicalDeviceVendorsId::NVIDIA,
            id == 0x1002 ==> vendor == PhysicalDeviceVendorsId::AMD,
            id == 0x8086 ==> vendor == PhysicalDeviceVendorsId::INTEL,
            id != 0x10DE && id != 0x1002 && id != 0x8086 ==> vendor
                == PhysicalDeviceVendorsId::UNDEFINED_VENDOR,
    {
        if id == 0x10DE {
            PhysicalDeviceVendorsId::NVIDIA
        } else if id == 0x1002 {
            PhysicalDeviceVendorsId::AMD
        } else if id == 0x8086 {
            PhysicalDeviceVendorsId::INTEL
        } else {
            PhysicalDeviceVendorsId::UNDEFINED_VENDOR
        }
    }

    /// The vendor's name as it is shown.
    pub open spec fn label(self) -> Seq<char> {
        match self {
            PhysicalDeviceVendorsId::NVIDIA => "Nvidia"@,
            PhysicalDeviceVendorsId::AMD => "Amd"@,
            PhysicalDeviceVendorsId::INTEL => "Intel"@,
            PhysicalDeviceVendorsId::UNDEFINED_VENDOR => "Undefined Vendor"@,
        }
    }

    /// The vendor's name as it is shown.
    pub fn name(&self) -> (text: &'static str)
        ensures
            text@ == self.label(),
    {
        match self {
            PhysicalDeviceVendorsId::NVIDIA => "Nvidia",
            PhysicalDeviceVendorsId::AMD => "Amd",
            PhysicalDeviceVendorsId::INTEL => "Intel",
            PhysicalDeviceVendorsId::UNDEFINED_VENDOR => "Undefined Vendor",
        }
    }
}

/// The vendor that a PCI vendor identifier names.
pub open spec fn vendor_of(id: u32) -> PhysicalDeviceVendorsId {
    if id == 0x10DE {
        PhysicalDeviceVendorsId::NVIDIA
    } else if id == 0x1002 {
        PhysicalDeviceVendorsId::AMD
    } else if id == 0x8086 {
        PhysicalDeviceVendorsId::INTEL
    } else {
        PhysicalDeviceVendorsId::UNDEFINED_VENDOR
    }
}

/// How a device type is shown.
pub open spec fn device_type_label(device_type: u32) -> Seq<char> {
    if device_type == VkPhysicalDeviceType_VK_PHYSICAL_DEVICE_TYPE_DISCRETE_GPU {
        "Discrete Gpu"@
    } else if device_type == VkPhysicalDeviceType_VK_PHYSICAL_DEVICE_TYPE_CPU {
        "CPU"@
    } else if device_type == VkPhysicalDeviceType_VK_PHYSICAL_DEVICE_TYPE_INTEGRATED_GPU {
        "Integrated Gpu"@
    } else {
        "Undefined Device Type"@
    }
}

/// How a device type is shown.
pub fn device_type_name(device_type: u32) -> (text: &'static str)
    ensures
        text@ == device_type_label(device_type),
{
    if device_type == VkPhysicalDeviceType_VK_PHYSICAL_DEVICE_TYPE_DISCRETE_GPU {
        "Discrete Gpu"
    } else if device_type == VkPhysicalDeviceType_VK_PHYSICAL_DEVICE_TYPE_CPU {
        "CPU"
    } else if device_type == VkPhysicalDeviceType_VK_PHYSICAL_DEVICE_TYPE_INTEGRATED_GPU {
        "Integrated Gpu"
    } else {
        "Undefined Device Type"
    }
}

/// What the native queries on one physical device returned.
#[derive(Debug)]
pub struct PhysicalDeviceReport {
    /// Result code of the extension enumeration.
    pub extensions_result: VkResult,
    pub extensions: Vec<VkExtensionProperties>,
    /// The feature switches, one bit each, in declaration order.
    pub features: u64,
    pub properties: VkPhysicalDeviceProperties,
    pub memory_types: Vec<VkMemoryType>,
    pub family_queues: Vec<VkQueueFamilyProperties>,
}

/// A read-only snapshot of one enumerated device, together with the queue
/// assignments that negotiation made on it.
#[derive(Debug)]
pub struct VulkanPhysicalDevice {
    pub ph_device: VkPhysicalDevice,
    pub extensions: Vec<VkExtensionProperties>,
    pub features: u64,
    pub properties: VkPhysicalDeviceProperties,
    pub mem_properties: Vec<VkMemoryType>,
    pub family_queues: Vec<VkQueueFamilyProperties>,
    pub desired_queues: Vec<QueueInfo>,
    pub supports_presentation: bool,
    pub presentation_queue_idx: i32,
    pub supported_presentation_modes: Vec<VkPresentModeKHR>,
}

impl VulkanPhysicalDevice {
    /// A device of which nothing has been loaded yet.
    pub open spec fn is_blank(self, ph_device: VkPhysicalDevice) -> bool {
        &&& self.ph_device == ph_device
        &&& self.extensions@.len() == 0
        &&& self.features == 0
        &&& self.properties.apiVersion == 0
        &&& self.properties.driverVersion == 0
        &&& self.properties.vendorID == 0
        &&& self.properties.deviceID == 0
        &&& self.properties.deviceType == 0
        &&& self.properties.deviceName@.len() == 0
        &&& self.mem_properties@.len() == 0
        &&& self.family_queues@.len() == 0
        &&& self.desired_queues@.len() == 0
        &&& !self.supports_presentation
        &&& self.presentation_queue_idx == -1
        &&& self.supported_presentation_modes@.len() == 0
    }

    /// The snapshot of a device before anything is loaded.
    pub fn new(ph_device: VkPhysicalDevice) -> (device: Self)
        ensures
            device.is_blank(ph_device),
    {
        VulkanPhysicalDevice {
            ph_device,
            extensions: Vec::new(),
            features: 0,
            properties: VkPhysicalDeviceProperties {
                apiVersion: 0,
                driverVersion: 0,
                vendorID: 0,
                deviceID: 0,
                deviceType: 0,
                deviceName: Vec::new(),
            },
            mem_properties: Vec::new(),
            family_queues: Vec::new(),
            desired_queues: Vec::new(),
            supports_presentation: false,
            presentation_queue_idx: -1,
            supported_presentation_modes: Vec::new(),
        }
    }

    /// The names of the device's extensions as text, one line each.
    pub fn list_extensions(&self) -> (lines: Vec<String>)
        requires
            names_are_text(self.extensions@),
        ensures
            lines@.len() == self.extensions@.len(),
            forall|i: int|
                0 <= i < self.extensions@.len() ==> (#[trigger] lines@[i])@ == decode_utf8(
                    self.extensions@[i].extensionName@,
                ),
    {
        extension_lines(&self.extensions)
    }

    /// Takes the reply of the device extension enumeration: the list is
    /// kept when the call succeeded and reported at least one extension.
    pub fn load_extensions(
        &mut self,
        result: VkResult,
        extensions: Vec<VkExtensionProperties>,
    ) -> (loaded:
        Result<(), VulkanInitError>)
        ensures
            loaded is Err <==> (result != VkResult_VK_SUCCESS || extensions@.len() == 0),
            loaded matches Err(e) ==> e == VulkanInitError::UNAVAILABLE_PHYSICAL_DEVICE_EXTENSIONS
                && *final(self) == *old(self),
            loaded is Ok ==> *final(self) == (VulkanPhysicalDevice { extensions, ..*old(self) }),
    {
        if result != VkResult_VK_SUCCESS || extensions.len() == 0 {
            return Err(VulkanInitError::UNAVAILABLE_PHYSICAL_DEVICE_EXTENSIONS);
        }
        self.extensions = extensions;
        Ok(())
    }

    /// Takes the device's feature switches.
    pub fn load_features(&mut self, features: u64)
        ensures
            *final(self) == (VulkanPhysicalDevice { features, ..*old(self) }),
    {
        self.features = features;
    }

    /// Takes the device's property block.
    pub fn load_properties(&mut self, properties: VkPhysicalDeviceProperties)
        ensures
            *final(self) == (VulkanPhysicalDevice { properties, ..*old(self) }),
    {
        self.properties = properties;
    }

    /// Takes the device's memory types.
    pub fn load_memory_properties(&mut self, memory_types: Vec<VkMemoryType>)
        ensures
            *final(self) == (VulkanPhysicalDevice { mem_properties: memory_types, ..*old(self) }),
    {
        self.mem_properties = memory_types;
    }

    /// Takes the device's queue families: the list is kept unless it is
    /// empty.
    pub fn load_family_queues(&mut self, family_queues: Vec<VkQueueFamilyProperties>) -> (loaded:
        Result<(), VulkanInitError>)
        ensures
            loaded is Err <==> family_queues@.len() == 0,
            loaded matches Err(e) ==> e == VulkanInitError::FAILED_TO_LIST_FAMILY_QUEUES
                && *final(self) == *old(self),
            loaded is Ok ==> *final(self) == (VulkanPhysicalDevice { family_queues, ..*old(self) }),
    {
        if family_queues.len() == 0 {
            return Err(VulkanInitError::FAILED_TO_LIST_FAMILY_QUEUES);
        }
        self.family_queues = family_queues;
        Ok(())
    }

    /// Reads the reply of a presentation-support query on one family: the
    /// family can present when the call succeeded and said so.
    pub fn supports_presentation(&self, result: VkResult, supports: VkBool32) -> (supported: bool)
        ensures
            supported == (result == VkResult_VK_SUCCESS && supports == VK_TRUE),
    {
        result == VkResult_VK_SUCCESS && supports == VK_TRUE
    }

    /// The device after a report has been loaded into it as far as the
    /// report allows.
    pub open spec fn with_report(self, report: PhysicalDeviceReport) -> Self {
        if report.extensions_result != VkResult_VK_SUCCESS || report.extensions@.len() == 0 {
            self
        } else if report.family_queues@.len() == 0 {
            VulkanPhysicalDevice {
                extensions: report.extensions,
                features: report.features,
                properties: report.properties,
                mem_properties: report.memory_types,
                ..self
            }
        } else {
            VulkanPhysicalDevice {
                extensions: report.extensions,
                features: report.features,
                properties: report.properties,
                mem_properties: report.memory_types,
                family_queues: report.family_queues,
                ..self
            }
        }
    }

    /// The error that loading a report ends in, if it does.
    pub open spec fn report_error(report: PhysicalDeviceReport) -> Option<VulkanInitError> {
        if report.extensions_result != VkResult_VK_SUCCESS || report.extensions@.len() == 0 {
            Some(VulkanInitError::UNAVAILABLE_PHYSICAL_DEVICE_EXTENSIONS)
        } else if report.family_queues@.len() == 0 {
            Some(VulkanInitError::FAILED_TO_LIST_FAMILY_QUEUES)
        } else {
            None
        }
    }

    /// Loads everything that was queried of the device: extensions,
    /// features, properties, memory types, then queue families. A failed
    /// step ends the loading and leaves the later parts as they were.
    pub fn load_infos(
        &mut self,
        report: PhysicalDeviceReport,
    ) -> (loaded: Result<(), VulkanInitError>)
        ensures
            *final(self) == old(self).with_report(report),
            match loaded {
                Ok(_) => Self::report_error(report) is None,
                Err(e) => Self::report_error(report) == Some(e),
            },
    {
        let PhysicalDeviceReport {
            extensions_result,
            extensions,
            features,
            properties,
            memory_types,
            family_queues,
        } = report;
        match self.load_extensions(extensions_result, extensions) {
            Err(e) => {
                return Err(e);
            },
            Ok(_) => {},
        }
        self.load_features(features);
        self.load_properties(properties);
        self.load_memory_properties(memory_types);
        match self.load_family_queues(family_queues) {
            Err(e) => {
                return Err(e);
            },
            Ok(_) => {},
        }
        Ok(())
    }

    /// Matches the desired capabilities against the device's queue
    /// families and records the assignments made.
    ///
    /// `presentation_support[i]` tells whether family `i` can present to
    /// the surface. The device is usable when every capability got a family
    /// and a matched family can present; that family is then latched as the
    /// presentation queue.
    pub fn has_desired_family_queues(
        &mut self,
        desired_capabilities: &[VkQueueFlags],
        presentation_support: &Vec<bool>,
    ) -> (usable: bool)
        ensures
            usable == negotiation_succeeded(
                negotiation_of(
                    old(self).family_queues@,
                    presentation_support@,
                    desired_capabilities@,
                ),
                desired_capabilities@,
            ),
            assignments_of(final(self).desired_queues@) == assignments_of(old(self).desired_queues@)
                + negotiation_of(
                old(self).family_queues@,
                presentation_support@,
                desired_capabilities@,
            ).assignments,
            match negotiation_of(
                old(self).family_queues@,
                presentation_support@,
                desired_capabilities@,
            ).presentation {
                Some(p) => final(self).supports_presentation && final(self).presentation_queue_idx
                    == p as i32,
                None => final(self).supports_presentation == old(self).supports_presentation
                    && final(self).presentation_queue_idx == old(self).presentation_queue_idx,
            },
            final(self).ph_device == old(self).ph_device,
            final(self).extensions == old(self).extensions,
            final(self).features == old(self).features,
            final(self).properties == old(self).properties,
            final(self).mem_properties == old(self).mem_properties,
            final(self).family_queues == old(self).family_queues,
            final(self).supported_presentation_modes == old(self).supported_presentation_modes,
    {
        let outcome = negotiate_queues(&self.family_queues, desired_capabilities, presentation_support);
        let NegotiationOutcome { queues, presentation } = outcome;
        let found_capabilities = queues.len();
        let mut queues = queues;
        let ghost before = self.desired_queues@;
        let ghost added = queues@;
        self.desired_queues.append(&mut queues);
        proof {
            assert(assignments_of(self.desired_queues@) =~= assignments_of(before) + assignments_of(
                added,
            ));
        }
        match presentation {
            Some(p) => {
                self.supports_presentation = true;
                self.presentation_queue_idx = #[verifier::truncate] (p as i32);
                found_capabilities == desired_capabilities.len()
            },
            None => false,
        }
    }

    /// Tells whether the device offers every desired extension.
    pub fn has_desired_extensions(&self, desired_extensions: &Vec<String>) -> (offered: bool)
        ensures
            offered == has_all_extensions(self.extensions@, desired_extensions@),
    {
        first_missing_extension(&self.extensions, desired_extensions).is_none()
    }

    /// Takes the reply of the present-mode enumeration: the list is kept
    /// when the call succeeded and reported at least one mode.
    pub fn load_presentation_modes(
        &mut self,
        result: VkResult,
        modes: Vec<VkPresentModeKHR>,
    ) -> (loaded:
        Result<(), VulkanInitError>)
        ensures
            loaded is Err <==> (result != VkResult_VK_SUCCESS || modes@.len() == 0),
            loaded matches Err(e) ==> e == VulkanInitError::UNAVAILABLE_PRESENTATION_MODE
                && *final(self) == *old(self),
            loaded is Ok ==> *final(self) == (VulkanPhysicalDevice {
                supported_presentation_modes: modes,
                ..*old(self)
            }),
    {
        if result != VkResult_VK_SUCCESS || modes.len() == 0 {
            return Err(VulkanInitError::UNAVAILABLE_PRESENTATION_MODE);
        }
        self.supported_presentation_modes = modes;
        Ok(())
    }

    /// The line that describes the device: its name, its type and its
    /// vendor.
    pub open spec fn description(self) -> Seq<char> {
        "the physical device "@ + decode_utf8(self.properties.deviceName@) + " of type "@
            + device_type_label(self.properties.deviceType) + " from "@ + vendor_of(
            self.properties.vendorID,
        ).label()
    }

    /// The line that describes the device.
    pub fn to_string(&self) -> (text: String)
        requires
            valid_utf8(self.properties.deviceName@),
        ensures
            text@ == self.description(),
    {
        let name_bytes = prefix_bytes(
            self.properties.deviceName.as_slice(),
            self.properties.deviceName.len(),
        );
        proof {
            assert(name_bytes@ =~= self.properties.deviceName@);
        }
        let name = string_from_utf8(name_bytes).unwrap();
        let vendor = PhysicalDeviceVendorsId::new(self.properties.vendorID);
        String::from_str("the physical device ").concat(name.as_str()).concat(" of type ").concat(
            device_type_name(self.properties.deviceType),
        ).concat(" from ").concat(vendor.name())
    }
}

} // verus!
