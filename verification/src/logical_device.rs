//! Selection of a physical device and construction of the logical device
//! on it.
use vstd::prelude::*;
use crate::entry_points::{
    address_of, all_resolved, find_address, resolved_prefix, resolved_view, ResolvedEntry,
};
use crate::entry_tables::{device_entries, device_table};
use crate::extension_names::{has_all_extensions, prefix_bytes};
use crate::physical_device::VulkanPhysicalDevice;
use crate::queue_negotiation::{
    assignments_of, negotiation_of, negotiation_succeeded, QueueAssignment, QueueInfo,
};
use crate::vulkan_bindings::{
    flags_intersect, VkDevice, VkDeviceCreateInfo, VkDeviceQueueCreateInfo, VkMemoryType,
    VkPhysicalDevice, VkPresentModeKHR, VkQueueFlags, VkResult, VkResult_VK_SUCCESS,
    VK_NULL_HANDLE,
};
use crate::vulkan_init::{resolve_tier, tier_failure, VulkanInitError, VulkanInstance};

verus! {

/// What is known of presentation support on device `i`: one flag for each
/// family, none when nothing was queried for the device.
pub open spec fn support_of(presentation_support: Seq<Vec<bool>>, i: int) -> Seq<bool> {
    if 0 <= i < presentation_support.len() {
        presentation_support[i]@
    } else {
        Seq::empty()
    }
}

/// A device is usable when it offers every desired extension, every
/// desired capability finds a queue family on it, and a matched family can
/// present to the surface.
pub open spec fn device_usable(
    device: VulkanPhysicalDevice,
    support: Seq<bool>,
    extensions: Seq<String>,
    capabilities: Seq<VkQueueFlags>,
) -> bool {
    &&& has_all_extensions(device.extensions@, extensions)
    &&& negotiation_succeeded(
        negotiation_of(device.family_queues@, support, capabilities),
        capabilities,
    )
}

/// Device `i` is the first usable one in enumeration order.
pub open spec fn is_first_usable(
    devices: Seq<VulkanPhysicalDevice>,
    presentation_support: Seq<Vec<bool>>,
    extensions: Seq<String>,
    capabilities: Seq<VkQueueFlags>,
    i: int,
) -> bool {
    &&& 0 <= i < devices.len()
    &&& device_usable(devices[i], support_of(presentation_support, i), extensions, capabilities)
    &&& forall|j: int|
        0 <= j < i ==> !device_usable(
            #[trigger] devices[j],
            support_of(presentation_support, j),
            extensions,
            capabilities,
        )
}

/// No device is usable.
pub open spec fn none_usable(
    devices: Seq<VulkanPhysicalDevice>,
    presentation_support: Seq<Vec<bool>>,
    extensions: Seq<String>,
    capabilities: Seq<VkQueueFlags>,
) -> bool {
    forall|j: int|
        0 <= j < devices.len() ==> !device_usable(
            #[trigger] devices[j],
            support_of(presentation_support, j),
            extensions,
            capabilities,
        )
}

/// `after` is `before` once the capabilities have been negotiated on it:
/// the assignments made are added to those it held, the presentation
/// family is latched if one was found, and nothing else changed.
pub open spec fn negotiated(
    before: VulkanPhysicalDevice,
    after: VulkanPhysicalDevice,
    support: Seq<bool>,
    capabilities: Seq<VkQueueFlags>,
) -> bool {
    &&& assignments_of(after.desired_queues@) == assignments_of(before.desired_queues@)
        + negotiation_of(before.family_queues@, support, capabilities).assignments
    &&& match negotiation_of(before.family_queues@, support, capabilities).presentation {
        Some(p) => after.supports_presentation && after.presentation_queue_idx == p as i32,
        None => after.supports_presentation == before.supports_presentation
            && after.presentation_queue_idx == before.presentation_queue_idx,
    }
    &&& after.ph_device == before.ph_device
    &&& after.extensions == before.extensions
    &&& after.features == before.features
    &&& after.properties == before.properties
    &&& after.mem_properties == before.mem_properties
    &&& after.family_queues == before.family_queues
    &&& after.supported_presentation_modes == before.supported_presentation_modes
}

/// How selection leaves a device: negotiated, when selection reached it
/// and it offers the desired extensions; untouched otherwise.
pub open spec fn device_after_selection(
    before: VulkanPhysicalDevice,
    after: VulkanPhysicalDevice,
    support: Seq<bool>,
    extensions: Seq<String>,
    capabilities: Seq<VkQueueFlags>,
    reached: bool,
) -> bool {
    if reached && has_all_extensions(before.extensions@, extensions) {
        negotiated(before, after, support, capabilities)
    } else {
        after == before
    }
}

/// The queue-create descriptors for a list of assignments: one for each,
/// asking for as many queues as the assignment has priorities.
pub open spec fn queue_create_infos(assignments: Seq<QueueAssignment>) -> Seq<
    VkDeviceQueueCreateInfo,
> {
    assignments.map_values(
        |a: QueueAssignment|
            VkDeviceQueueCreateInfo {
                flags: 0,
                queueFamilyIndex: a.family as u32,
                queueCount: a.priorities.len() as u32,
            },
    )
}

/// Assignment `a` can give queue `queue_idx` for `capability`.
pub open spec fn queue_serves(
    a: QueueAssignment,
    capability: VkQueueFlags,
    queue_idx: int,
) -> bool {
    flags_intersect(a.capability, capability) && queue_idx < a.priorities.len()
}

/// Assignment `k` is the first that can give the queue.
pub open spec fn is_first_serving_queue(
    assignments: Seq<QueueAssignment>,
    capability: VkQueueFlags,
    queue_idx: int,
    k: int,
) -> bool {
    &&& 0 <= k < assignments.len()
    &&& queue_serves(assignments[k], capability, queue_idx)
    &&& forall|j: int| 0 <= j < k ==> !queue_serves(#[trigger] assignments[j], capability, queue_idx)
}

/// The queue to fetch from the device: a family and an index within it.
#[derive(Clone, Copy, Debug, PartialEq, Eq, Structural)]
pub struct DeviceQueueRequest {
    pub queueFamilyIndex: u32,
    pub queueIndex: u32,
}

/// A configured device on a selected physical device.
///
/// The physical device is referred to by its position in the instance's
/// list; what the logical device reads of it is copied at selection.
#[derive(Debug)]
pub struct VulkanLogicalDevice {
    pub device: VkDevice,
    pub demanded_queues: Vec<VkDeviceQueueCreateInfo>,
    pub enabled_extensions: Vec<String>,
    /// Position of the selected physical device in the instance's list.
    pub physical_device: usize,
    /// Handle of the selected physical device.
    pub ph_device: VkPhysicalDevice,
    /// The queue assignments of the selected physical device.
    pub queues: Vec<QueueInfo>,
    /// The memory types of the selected physical device.
    pub memory_types: Vec<VkMemoryType>,
    pub presentation_mode: VkPresentModeKHR,
    pub functions: Vec<ResolvedEntry>,
}

/// What selecting a device does to the instance and what it returns.
///
/// Devices are tried in enumeration order and the first usable one is
/// taken; there is no preference among usable devices. Every device that
/// was reached and offers the desired extensions has been negotiated on.
pub open spec fn selection_outcome(
    before: VulkanInstance,
    after: VulkanInstance,
    extensions: Seq<String>,
    capabilities: Seq<VkQueueFlags>,
    presentation_support: Seq<Vec<bool>>,
    presentation_mode: VkPresentModeKHR,
    outcome: Result<VulkanLogicalDevice, VulkanInitError>,
) -> bool {
    &&& after.functions == before.functions
    &&& after.available_extensions == before.available_extensions
    &&& after.enabled_extensions == before.enabled_extensions
    &&& after.instance == before.instance
    &&& after.step == before.step
    &&& after.physical_devices@.len() == before.physical_devices@.len()
    &&& match outcome {
        Err(e) => {
            &&& e == VulkanInitError::NO_CAPABLE_PHYSICAL_DEVICE
            &&& none_usable(before.physical_devices@, presentation_support, extensions, capabilities)
            &&& forall|j: int|
                0 <= j < before.physical_devices@.len() ==> device_after_selection(
                    before.physical_devices@[j],
                    #[trigger] after.physical_devices@[j],
                    support_of(presentation_support, j),
                    extensions,
                    capabilities,
                    true,
                )
        },
        Ok(device) => {
            &&& is_first_usable(
                before.physical_devices@,
                presentation_support,
                extensions,
                capabilities,
                device.physical_device as int,
            )
            &&& forall|j: int|
                0 <= j < before.physical_devices@.len() ==> device_after_selection(
                    before.physical_devices@[j],
                    #[trigger] after.physical_devices@[j],
                    support_of(presentation_support, j),
                    extensions,
                    capabilities,
                    j <= device.physical_device,
                )
            &&& device.prepared_on(
                after.physical_devices@[device.physical_device as int],
                extensions,
                presentation_mode,
            )
        },
    }
}

/// Copies a list of queue assignments.
pub fn copy_queues(queues: &Vec<QueueInfo>) -> (copy: Vec<QueueInfo>)
    ensures
        assignments_of(copy@) == assignments_of(queues@),
{
    let mut copy: Vec<QueueInfo> = Vec::new();
    let mut i: usize = 0;
    while i < queues.len()
        invariant
            i <= queues@.len(),
            copy@.len() == i,
            assignments_of(copy@) == assignments_of(queues@.take(i as int)),
        decreases queues@.len() - i,
    {
        let q = &queues[i];
        let priorities = prefix_bytes(q.priorities.as_slice(), q.priorities.len());
        proof {
            assert(priorities@ =~= q.priorities@);
        }
        let ghost before = copy@;
        copy.push(QueueInfo { familyIndex: q.familyIndex, capability: q.capability, priorities });
        proof {
            assert(copy@[i as int]@ == queues@[i as int]@);
            assert(assignments_of(copy@) =~= assignments_of(before).push(queues@[i as int]@));
            assert(assignments_of(queues@.take(i as int + 1)) =~= assignments_of(
                queues@.take(i as int),
            ).push(queues@[i as int]@));
        }
        i = i + 1;
    }
    proof {
        assert(queues@.take(i as int) =~= queues@);
    }
    copy
}

/// Copies a list of memory types.
pub fn copy_memory_types(types: &Vec<VkMemoryType>) -> (copy: Vec<VkMemoryType>)
    ensures
        copy@ == types@,
{
    let mut copy: Vec<VkMemoryType> = Vec::new();
    let mut i: usize = 0;
    while i < types.len()
        invariant
            i <= types@.len(),
            copy@ == types@.take(i as int),
        decreases types@.len() - i,
    {
        copy.push(types[i]);
        proof {
            assert(copy@ =~= types@.take(i as int + 1));
        }
        i = i + 1;
    }
    proof {
        assert(types@.take(i as int) =~= types@);
    }
    copy
}

impl VulkanLogicalDevice {
    /// The device as selection leaves it: nothing created yet, one
    /// queue-create descriptor for each assignment of the physical device.
    pub open spec fn prepared_on(
        self,
        physical_device: VulkanPhysicalDevice,
        extensions: Seq<String>,
        presentation_mode: VkPresentModeKHR,
    ) -> bool {
        &&& self.device == VK_NULL_HANDLE
        &&& self.ph_device == physical_device.ph_device
        &&& self.enabled_extensions@ == extensions
        &&& assignments_of(self.queues@) == assignments_of(physical_device.desired_queues@)
        &&& self.demanded_queues@ == queue_create_infos(assignments_of(self.queues@))
        &&& self.memory_types@ == physical_device.mem_properties@
        &&& self.presentation_mode == presentation_mode
        &&& self.functions@.len() == 0
    }

    /// Selects the first usable physical device of the instance and
    /// prepares a logical device on it.
    ///
    /// `presentation_support[i][f]` tells whether family `f` of device `i`
    /// can present to the surface. The device returned is not created yet:
    /// its queue-create descriptors are built, and the replies of device
    /// creation and of the device-level lookups are still to be handed to
    /// [`VulkanLogicalDevice::create_logical_device`] and
    /// [`VulkanLogicalDevice::load_device_functions`].
    pub fn new(
        vulkan_instance: &mut VulkanInstance,
        desired_extensions: Vec<String>,
        desired_capabilites: &[VkQueueFlags],
        presentation_support: &Vec<Vec<bool>>,
        presentation_mode: VkPresentModeKHR,
    ) -> (device: Result<Self, VulkanInitError>)
        ensures
            selection_outcome(
                *old(vulkan_instance),
                *final(vulkan_instance),
                desired_extensions@,
                desired_capabilites@,
                presentation_support@,
                presentation_mode,
                device,
            ),
    {
        let count = vulkan_instance.physical_devices.len();
        let unknown: Vec<bool> = Vec::new();
        let mut i: usize = 0;
        while i < count
            invariant
                i <= count,
                unknown@.len() == 0,
                count == old(vulkan_instance).physical_devices@.len(),
                vulkan_instance.physical_devices@.len() == count,
                vulkan_instance.functions == old(vulkan_instance).functions,
                vulkan_instance.available_extensions == old(vulkan_instance).available_extensions,
                vulkan_instance.enabled_extensions == old(vulkan_instance).enabled_extensions,
                vulkan_instance.instance == old(vulkan_instance).instance,
                vulkan_instance.step == old(vulkan_instance).step,
                forall|j: int|
                    0 <= j < i ==> !device_usable(
                        #[trigger] old(vulkan_instance).physical_devices@[j],
                        support_of(presentation_support@, j),
                        desired_extensions@,
                        desired_capabilites@,
                    ),
                forall|j: int|
                    0 <= j < i ==> device_after_selection(
                        old(vulkan_instance).physical_devices@[j],
                        #[trigger] vulkan_instance.physical_devices@[j],
                        support_of(presentation_support@, j),
                        desired_extensions@,
                        desired_capabilites@,
                        true,
                    ),
                forall|j: int|
                    i <= j < count ==> #[trigger] vulkan_instance.physical_devices@[j]
                        == old(vulkan_instance).physical_devices@[j],
            decreases count - i,
        {
            let support: &Vec<bool> = if i < presentation_support.len() {
                &presentation_support[i]
            } else {
                &unknown
            };
            proof {
                assert(support@ =~= support_of(presentation_support@, i as int));
            }
            let ghost devices_before = vulkan_instance.physical_devices@;
            let mut candidate = vulkan_instance.physical_devices.remove(i);
            let ghost candidate_before = candidate;
            let mut usable = false;
            if candidate.has_desired_extensions(&desired_extensions) {
                usable = candidate.has_desired_family_queues(desired_capabilites, support);
            }
            proof {
                assert(device_after_selection(
                    candidate_before,
                    candidate,
                    support@,
                    desired_extensions@,
                    desired_capabilites@,
                    true,
                ));
            }
            if usable {
                let queues = copy_queues(&candidate.desired_queues);
                let memory_types = copy_memory_types(&candidate.mem_properties);
                let ph_device = candidate.ph_device;
                let ghost selected = candidate;
                vulkan_instance.physical_devices.insert(i, candidate);
                proof {
                    assert(vulkan_instance.physical_devices@ =~= devices_before.update(
                        i as int,
                        selected,
                    ));
                }
                let mut device = VulkanLogicalDevice {
                    device: VK_NULL_HANDLE,
                    demanded_queues: Vec::new(),
                    enabled_extensions: desired_extensions,
                    physical_device: i,
                    ph_device,
                    queues,
                    memory_types,
                    presentation_mode,
                    functions: Vec::new(),
                };
                device.init_device_queue_info();
                proof {
                    assert(device.demanded_queues@ =~= queue_create_infos(
                        assignments_of(device.queues@),
                    ));
                    assert forall|j: int|
                        0 <= j < count implies device_after_selection(
                        old(vulkan_instance).physical_devices@[j],
                        #[trigger] vulkan_instance.physical_devices@[j],
                        support_of(presentation_support@, j),
                        desired_extensions@,
                        desired_capabilites@,
                        j <= i,
                    ) by {
                        if j > i {
                            assert(vulkan_instance.physical_devices@[j] == devices_before[j]);
                        }
                    }
                }
                return Ok(device);
            }
            let ghost tried = candidate;
            vulkan_instance.physical_devices.insert(i, candidate);
            proof {
                assert(vulkan_instance.physical_devices@ =~= devices_before.update(i as int, tried));
            }
            i = i + 1;
        }
        Err(VulkanInitError::NO_CAPABLE_PHYSICAL_DEVICE)
    }

    /// Adds one queue-create descriptor for each queue assignment: the
    /// assignment's family, and as many queues as it has priorities.
    pub fn init_device_queue_info(&mut self)
        ensures
            final(self).demanded_queues@ == old(self).demanded_queues@ + queue_create_infos(
                assignments_of(old(self).queues@),
            ),
            final(self).device == old(self).device,
            final(self).enabled_extensions == old(self).enabled_extensions,
            final(self).physical_device == old(self).physical_device,
            final(self).ph_device == old(self).ph_device,
            final(self).queues == old(self).queues,
            final(self).memory_types == old(self).memory_types,
            final(self).presentation_mode == old(self).presentation_mode,
            final(self).functions == old(self).functions,
    {
        let mut i: usize = 0;
        while i < self.queues.len()
            invariant
                i <= self.queues@.len(),
                self.demanded_queues@ == old(self).demanded_queues@ + queue_create_infos(
                    assignments_of(self.queues@.take(i as int)),
                ),
                self.device == old(self).device,
                self.enabled_extensions == old(self).enabled_extensions,
                self.physical_device == old(self).physical_device,
                self.ph_device == old(self).ph_device,
                self.queues == old(self).queues,
                self.memory_types == old(self).memory_types,
                self.presentation_mode == old(self).presentation_mode,
                self.functions == old(self).functions,
            decreases self.queues@.len() - i,
        {
            let info = VkDeviceQueueCreateInfo {
                flags: 0,
                queueFamilyIndex: #[verifier::truncate] (self.queues[i].familyIndex as u32),
                queueCount: #[verifier::truncate] (self.queues[i].priorities.len() as u32),
            };
            self.demanded_queues.push(info);
            proof {
                assert(self.demanded_queues@ =~= old(self).demanded_queues@ + queue_create_infos(
                    assignments_of(self.queues@.take(i as int + 1)),
                ));
            }
            i = i + 1;
        }
        proof {
            assert(self.queues@.take(i as int) =~= self.queues@);
        }
    }

    /// What device creation is asked for.
    pub open spec fn create_info(self) -> VkDeviceCreateInfo {
        VkDeviceCreateInfo {
            flags: 0,
            queueCreateInfoCount: self.demanded_queues@.len() as u32,
            enabledLayerCount: 0,
            enabledExtensionCount: self.enabled_extensions@.len() as u32,
        }
    }

    /// Builds the block that device creation is called with: the
    /// queue-create descriptors and the enabled extensions of this device,
    /// no layers and no features.
    pub fn device_create_info(&self) -> (info: VkDeviceCreateInfo)
        ensures
            info == self.create_info(),
    {
        VkDeviceCreateInfo {
            flags: 0,
            queueCreateInfoCount: #[verifier::truncate] (self.demanded_queues.len() as u32),
            enabledLayerCount: 0,
            enabledExtensionCount: #[verifier::truncate] (self.enabled_extensions.len() as u32),
        }
    }

    /// Takes the reply of device creation: the handle is kept when the
    /// call succeeded and returned a handle.
    pub fn create_logical_device(&mut self, result: VkResult, device: VkDevice) -> (created: Result<
        (),
        VulkanInitError,
    >)
        ensures
            created is Err <==> (result != VkResult_VK_SUCCESS || device == VK_NULL_HANDLE),
            created matches Err(e) ==> e == VulkanInitError::FAILED_INSTANTIATING_LOGICAL_DEVICE
                && *final(self) == *old(self),
            created is Ok ==> *final(self) == (VulkanLogicalDevice { device, ..*old(self) }),
    {
        if result != VkResult_VK_SUCCESS || device == VK_NULL_HANDLE {
            return Err(VulkanInitError::FAILED_INSTANTIATING_LOGICAL_DEVICE);
        }
        self.device = device;
        Ok(())
    }

    /// Takes the addresses of the device-level entries.
    ///
    /// An entry that an extension owns is wanted only when the device
    /// enabled that extension. Fails with the error of the first wanted
    /// symbol that is missing.
    pub fn load_device_functions(&mut self, addresses: &Vec<u64>) -> (loaded: Result<
        (),
        VulkanInitError,
    >)
        ensures
            loaded is Ok <==> all_resolved(device_table(), old(self).enabled_extensions@, addresses@),
            loaded matches Err(e) ==> *final(self) == *old(self) && tier_failure(
                device_table(),
                old(self).enabled_extensions@,
                addresses@,
                e,
            ),
            loaded is Ok ==> {
                &&& resolved_view(final(self).functions@) == resolved_view(old(self).functions@)
                    + resolved_prefix(
                    device_table(),
                    old(self).enabled_extensions@,
                    addresses@,
                    device_table().len() as int,
                )
                &&& final(self).device == old(self).device
                &&& final(self).demanded_queues == old(self).demanded_queues
                &&& final(self).enabled_extensions == old(self).enabled_extensions
                &&& final(self).physical_device == old(self).physical_device
                &&& final(self).ph_device == old(self).ph_device
                &&& final(self).queues == old(self).queues
                &&& final(self).memory_types == old(self).memory_types
                &&& final(self).presentation_mode == old(self).presentation_mode
            },
    {
        let rows = device_entries();
        let mut entries = match resolve_tier(&rows, &self.enabled_extensions, addresses) {
            Ok(entries) => entries,
            Err(e) => {
                return Err(e);
            },
        };
        let ghost before = self.functions@;
        let ghost added = entries@;
        self.functions.append(&mut entries);
        proof {
            assert(resolved_view(self.functions@) =~= resolved_view(before) + resolved_view(added));
        }
        Ok(())
    }

    /// The address that was resolved for a device-level symbol, if it was.
    pub fn function_address(&self, name: &str) -> (address: Option<u64>)
        ensures
            address == address_of(resolved_view(self.functions@), name@),
    {
        find_address(&self.functions, name)
    }

    /// Finds the queue to fetch for a capability and an index.
    ///
    /// The queue comes from the first assignment whose capability shares a
    /// bit with the desired one and whose family has a queue of that
    /// index. When no assignment has one, the index is wrong.
    pub fn get_device_queue(&self, desired_capability: VkQueueFlags, queue_idx: usize) -> (request:
        Result<DeviceQueueRequest, VulkanInitError>)
        ensures
            request is Err <==> forall|k: int|
                0 <= k < self.queues@.len() ==> !queue_serves(
                    #[trigger] assignments_of(self.queues@)[k],
                    desired_capability,
                    queue_idx as int,
                ),
            request matches Err(e) ==> e == VulkanInitError::WRONG_DEVICE_QUEUE_INDEX,
            request matches Ok(r) ==> exists|k: int|
                #![trigger assignments_of(self.queues@)[k]]
                is_first_serving_queue(
                    assignments_of(self.queues@),
                    desired_capability,
                    queue_idx as int,
                    k,
                ) && r == (DeviceQueueRequest {
                    queueFamilyIndex: assignments_of(self.queues@)[k].family as u32,
                    queueIndex: queue_idx as u32,
                }),
    {
        let mut k: usize = 0;
        while k < self.queues.len()
            invariant
                k <= self.queues@.len(),
                forall|j: int|
                    0 <= j < k ==> !queue_serves(
                        #[trigger] assignments_of(self.queues@)[j],
                        desired_capability,
                        queue_idx as int,
                    ),
            decreases self.queues@.len() - k,
        {
            let queue = &self.queues[k];
            if (queue.capability & desired_capability != 0) && queue_idx < queue.priorities.len() {
                proof {
                    assert(is_first_serving_queue(
                        assignments_of(self.queues@),
                        desired_capability,
                        queue_idx as int,
                        k as int,
                    ));
                }
                return Ok(
                    DeviceQueueRequest {
                        queueFamilyIndex: #[verifier::truncate] (queue.familyIndex as u32),
                        queueIndex: #[verifier::truncate] (queue_idx as u32),
                    },
                );
            }
            k = k + 1;
        }
        Err(VulkanInitError::WRONG_DEVICE_QUEUE_INDEX)
    }

    /// Gives up the device. The handle returned is the one to destroy,
    /// before the instance is.
    pub fn destroy(self) -> (handle: VkDevice)
        ensures
            handle == self.device,
    {
        self.device
    }
}

} // verus!
