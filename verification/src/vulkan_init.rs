//! Bootstrap of the native API: entry tiers, instance creation, physical
//! device selection and logical device construction.
//!
//! Every step takes the reply of the native call it stands for. The
//! embedding program makes the calls in the order that
//! [`VulkanInstance::advance`] gives, and stops at the first error.
use vstd::prelude::*;
use vstd::utf8::decode_utf8;
use crate::entry_points::{
    address_of, all_resolved, find_address, is_first_unresolved, resolve_entries,
    resolved_prefix, resolved_view, rows_of, unresolved_entry_message, unresolved_message,
    EntryPoint, EntryRow, EntryTier, ResolvedEntry,
};
use crate::entry_tables::{
    exported_entries, exported_table, global_entries, global_table, instance_entries,
    instance_table,
};
use crate::extension_names::{
    extension_lines, first_missing_extension, has_all_extensions, is_first_missing,
    names_are_text,
};
use crate::logical_device::selection_outcome;
pub use crate::extension_names::load_extension_names;
pub use crate::logical_device::VulkanLogicalDevice;
pub use crate::physical_device::{
    PhysicalDeviceReport, PhysicalDeviceVendorsId, VulkanPhysicalDevice,
};
pub use crate::queue_negotiation::QueueInfo;
use crate::vulkan_bindings::{
    VkApplicationInfo, VkExtensionProperties, VkInstance, VkInstanceCreateInfo,
    VkPhysicalDevice, VkPresentModeKHR, VkQueueFlags, VkResult, VkResult_VK_SUCCESS,
    VK_NULL_HANDLE,
};

verus! {

/// What can go wrong between loading the native library and holding a
/// logical device.
#[derive(Debug, PartialEq, Eq)]
pub enum VulkanInitError {
    UNLOADABLE_LIBRARY,
    EXPORTED_VK_FUNCTION_ERROR(String),
    GLOBAL_VK_FUNCTION_ERROR(String),
    UNLOADABLE_EXTENSIONS,
    UNAVAILABLE_EXTENSION(String),
    FAILED_INSTANTIATING_VULKAN,
    INSTANCE_VK_FUNCTION_ERROR(String),
    INSTANCE_VK_EXT_FUNCTION_ERROR(String),
    UNAVAILABLE_VULKAN_PHYSICAL_DEVICES,
    UNAVAILABLE_PHYSICAL_DEVICE_EXTENSIONS,
    FAILED_TO_LIST_FAMILY_QUEUES,
    NO_VALID_DESIRED_FAMILY_QUEUE,
    UNAVAILABLE_DESIRED_PHYSICAL_DEVICE_EXTENSION(String),
    FAILED_INSTANTIATING_LOGICAL_DEVICE,
    DEVICE_LEVEL_FUNCTION_ERROR(String),
    WRONG_DEVICE_QUEUE_INDEX,
    NO_CAPABLE_PHYSICAL_DEVICE,
    UNAVAILABLE_PRESENTATION_MODE,
}

impl VulkanInitError {
    /// The text that reports the error.
    pub open spec fn message(self) -> Seq<char> {
        match self {
            VulkanInitError::UNLOADABLE_LIBRARY => "Couldn't load vulkan library"@,
            VulkanInitError::UNLOADABLE_EXTENSIONS => "Couldn't load vulkan available extensions"@,
            VulkanInitError::UNAVAILABLE_EXTENSION(exts) =>
                "Can't initiate this unavailable extensions: "@
                + exts@,
            VulkanInitError::FAILED_INSTANTIATING_VULKAN =>
                "An Error Occured During Vulkan Instantiation"@,
            VulkanInitError::UNAVAILABLE_VULKAN_PHYSICAL_DEVICES =>
                "Couldn't load any vulkan capable physical device"@,
            VulkanInitError::UNAVAILABLE_PHYSICAL_DEVICE_EXTENSIONS =>
                "Couldn't load any physical device extension"@,
            VulkanInitError::FAILED_TO_LIST_FAMILY_QUEUES =>
                "Couldn't list any family queues on physical device"@,
            VulkanInitError::NO_VALID_DESIRED_FAMILY_QUEUE =>
                "Couldn't find valid desired family queue"@,
            VulkanInitError::UNAVAILABLE_DESIRED_PHYSICAL_DEVICE_EXTENSION(ext) =>
                "Couldn't find this physical device extension: "@
                + ext@,
            VulkanInitError::FAILED_INSTANTIATING_LOGICAL_DEVICE =>
                "Couldn't initiate Logical Device"@,
            VulkanInitError::WRONG_DEVICE_QUEUE_INDEX => "Wrong Device queue index given"@,
            VulkanInitError::NO_CAPABLE_PHYSICAL_DEVICE =>
                "No Capable Physical Device in this machine"@,
            VulkanInitError::UNAVAILABLE_PRESENTATION_MODE =>
                "Couldn't load any Presentation Mode"@,
            VulkanInitError::EXPORTED_VK_FUNCTION_ERROR(msg) => msg@,
            VulkanInitError::GLOBAL_VK_FUNCTION_ERROR(msg) => msg@,
            VulkanInitError::INSTANCE_VK_FUNCTION_ERROR(msg) => msg@,
            VulkanInitError::INSTANCE_VK_EXT_FUNCTION_ERROR(msg) => msg@,
            VulkanInitError::DEVICE_LEVEL_FUNCTION_ERROR(msg) => msg@,
        }
    }

    /// The text that reports the error.
    pub fn to_string(&self) -> (text: String)
        ensures
            text@ == self.message(),
    {
        match self {
            VulkanInitError::UNLOADABLE_LIBRARY => String::from_str("Couldn't load vulkan library"),
            VulkanInitError::UNLOADABLE_EXTENSIONS => String::from_str(
                "Couldn't load vulkan available extensions",
            ),
            VulkanInitError::UNAVAILABLE_EXTENSION(exts) => String::from_str(
                "Can't initiate this unavailable extensions: ",
            ).concat(exts.as_str()),
            VulkanInitError::FAILED_INSTANTIATING_VULKAN => String::from_str(
                "An Error Occured During Vulkan Instantiation",
            ),
            VulkanInitError::UNAVAILABLE_VULKAN_PHYSICAL_DEVICES => String::from_str(
                "Couldn't load any vulkan capable physical device",
            ),
            VulkanInitError::UNAVAILABLE_PHYSICAL_DEVICE_EXTENSIONS => String::from_str(
                "Couldn't load any physical device extension",
            ),
            VulkanInitError::FAILED_TO_LIST_FAMILY_QUEUES => String::from_str(
                "Couldn't list any family queues on physical device",
            ),
            VulkanInitError::NO_VALID_DESIRED_FAMILY_QUEUE => String::from_str(
                "Couldn't find valid desired family queue",
            ),
            VulkanInitError::UNAVAILABLE_DESIRED_PHYSICAL_DEVICE_EXTENSION(ext) => String::from_str(
                "Couldn't find this physical device extension: ",
            ).concat(ext.as_str()),
            VulkanInitError::FAILED_INSTANTIATING_LOGICAL_DEVICE => String::from_str(
                "Couldn't initiate Logical Device",
            ),
            VulkanInitError::WRONG_DEVICE_QUEUE_INDEX => String::from_str(
                "Wrong Device queue index given",
            ),
            VulkanInitError::NO_CAPABLE_PHYSICAL_DEVICE => String::from_str(
                "No Capable Physical Device in this machine",
            ),
            VulkanInitError::UNAVAILABLE_PRESENTATION_MODE => String::from_str(
                "Couldn't load any Presentation Mode",
            ),
            VulkanInitError::EXPORTED_VK_FUNCTION_ERROR(msg) => msg.clone(),
            VulkanInitError::GLOBAL_VK_FUNCTION_ERROR(msg) => msg.clone(),
            VulkanInitError::INSTANCE_VK_FUNCTION_ERROR(msg) => msg.clone(),
            VulkanInitError::INSTANCE_VK_EXT_FUNCTION_ERROR(msg) => msg.clone(),
            VulkanInitError::DEVICE_LEVEL_FUNCTION_ERROR(msg) => msg.clone(),
        }
    }
}

/// The error that reports `entry` as unresolved: the variant of its tier,
/// holding the message that names the symbol.
pub open spec fn unresolved_error(entry: EntryRow, error: VulkanInitError) -> bool {
    match entry.tier {
        EntryTier::Exported => error matches VulkanInitError::EXPORTED_VK_FUNCTION_ERROR(msg)
            && msg@ == unresolved_message(entry),
        EntryTier::Global => error matches VulkanInitError::GLOBAL_VK_FUNCTION_ERROR(msg) && msg@
            == unresolved_message(entry),
        EntryTier::Instance => if entry.extension is Some {
            error matches VulkanInitError::INSTANCE_VK_EXT_FUNCTION_ERROR(msg) && msg@
                == unresolved_message(entry)
        } else {
            error matches VulkanInitError::INSTANCE_VK_FUNCTION_ERROR(msg) && msg@
                == unresolved_message(entry)
        },
        EntryTier::Device => error matches VulkanInitError::DEVICE_LEVEL_FUNCTION_ERROR(msg)
            && msg@ == unresolved_message(entry),
    }
}

/// The error that reports an entry that had to resolve and did not.
pub fn entry_error(entry: &EntryPoint) -> (error: VulkanInitError)
    ensures
        unresolved_error(entry@, error),
{
    let message = unresolved_entry_message(entry);
    match entry.tier {
        EntryTier::Exported => VulkanInitError::EXPORTED_VK_FUNCTION_ERROR(message),
        EntryTier::Global => VulkanInitError::GLOBAL_VK_FUNCTION_ERROR(message),
        EntryTier::Instance => if entry.extension.is_some() {
            VulkanInitError::INSTANCE_VK_EXT_FUNCTION_ERROR(message)
        } else {
            VulkanInitError::INSTANCE_VK_FUNCTION_ERROR(message)
        },
        EntryTier::Device => VulkanInitError::DEVICE_LEVEL_FUNCTION_ERROR(message),
    }
}

/// An unresolved row of `table` is what `error` reports: the first row
/// that had to resolve and did not.
pub open spec fn tier_failure(
    table: Seq<EntryRow>,
    enabled: Seq<String>,
    addresses: Seq<u64>,
    error: VulkanInitError,
) -> bool {
    exists|i: int|
        #![trigger table[i]]
        is_first_unresolved(table, enabled, addresses, i) && unresolved_error(table[i], error)
}

/// Resolves one tier: the wanted rows with their addresses, or the error
/// that names the first symbol that came back empty.
pub fn resolve_tier(
    table: &Vec<EntryPoint>,
    enabled: &Vec<String>,
    addresses: &Vec<u64>,
) -> (outcome:
    Result<Vec<ResolvedEntry>, VulkanInitError>)
    ensures
        outcome is Ok <==> all_resolved(rows_of(table@), enabled@, addresses@),
        outcome matches Ok(entries) ==> resolved_view(entries@) == resolved_prefix(
            rows_of(table@),
            enabled@,
            addresses@,
            table@.len() as int,
        ),
        outcome matches Err(e) ==> tier_failure(rows_of(table@), enabled@, addresses@, e),
{
    match resolve_entries(table, enabled, addresses) {
        Ok(entries) => Ok(entries),
        Err(i) => {
            let error = entry_error(&table[i]);
            proof {
                assert(rows_of(table@)[i as int] == table@[i as int]@);
            }
            Err(error)
        },
    }
}

/// The version word that packs a variant, a major, a minor and a patch
/// number.
pub open spec fn api_version(variant: u32, major: u32, minor: u32, patch: u32) -> u32 {
    (variant << 29u32) | (major << 22u32) | (minor << 12u32) | patch
}

/// Packs a variant, a major, a minor and a patch number into one word.
pub fn make_api_version(variant: u32, major: u32, minor: u32, patch: u32) -> (word: u32)
    ensures
        word == api_version(variant, major, minor, patch),
{
    (variant << 29u32) | (major << 22u32) | (minor << 12u32) | patch
}

/// Numbers that fit their fields can be read back from the version word.
pub proof fn lemma_api_version_fields(variant: u32, major: u32, minor: u32, patch: u32)
    requires
        variant < 8,
        major < 128,
        minor < 1024,
        patch < 4096,
    ensures
        api_version(variant, major, minor, patch) >> 29u32 == variant,
        (api_version(variant, major, minor, patch) >> 22u32) & 0x7Fu32 == major,
        (api_version(variant, major, minor, patch) >> 12u32) & 0x3FFu32 == minor,
        api_version(variant, major, minor, patch) & 0xFFFu32 == patch,
{
    assert(((variant << 29u32) | (major << 22u32) | (minor << 12u32) | patch) >> 29u32 == variant)
        by (bit_vector)
        requires
            variant < 8,
            major < 128,
            minor < 1024,
            patch < 4096,
    ;
    assert((((variant << 29u32) | (major << 22u32) | (minor << 12u32) | patch) >> 22u32) & 0x7Fu32
        == major) by (bit_vector)
        requires
            variant < 8,
            major < 128,
            minor < 1024,
            patch < 4096,
    ;
    assert((((variant << 29u32) | (major << 22u32) | (minor << 12u32) | patch) >> 12u32) & 0x3FFu32
        == minor) by (bit_vector)
        requires
            variant < 8,
            major < 128,
            minor < 1024,
            patch < 4096,
    ;
    assert(((variant << 29u32) | (major << 22u32) | (minor << 12u32) | patch) & 0xFFFu32 == patch)
        by (bit_vector)
        requires
            variant < 8,
            major < 128,
            minor < 1024,
            patch < 4096,
    ;
}

/// Name under which the application and the engine announce themselves.
pub fn application_name() -> (name: &'static str)
    ensures
        name@ == "anvil"@,
{
    "anvil"
}

/// The step of the instance bootstrap that comes next.
#[derive(Clone, Copy, Debug, PartialEq, Eq, Structural)]
pub enum InstanceStep {
    LoadGlobalFunctions,
    LoadAvailableExtensions,
    InstantiateVulkan,
    LoadInstanceFunctions,
    LoadPhysicalDevices,
    Ready,
}

/// One physical device as enumeration found it: its handle and what the
/// queries on it returned.
#[derive(Debug)]
pub struct EnumeratedDevice {
    pub handle: VkPhysicalDevice,
    pub report: PhysicalDeviceReport,
}

/// The reply to one step of the instance bootstrap.
#[derive(Debug)]
pub enum InstanceReply {
    /// Addresses for the rows of the exported and of the global table.
    GlobalFunctions { exported: Vec<u64>, global: Vec<u64> },
    /// Result code and list of the instance extension enumeration.
    AvailableExtensions { result: VkResult, extensions: Vec<VkExtensionProperties> },
    /// Result code and handle of instance creation.
    Instantiated { result: VkResult, instance: VkInstance },
    /// Addresses for the rows of the instance table.
    InstanceFunctions { addresses: Vec<u64> },
    /// Result code and list of the physical device enumeration.
    PhysicalDevices { result: VkResult, devices: Vec<EnumeratedDevice> },
}

/// The live connection to the native API: the resolved entry points, the
/// extensions it offers and those that were asked for, the instance handle
/// and the physical devices found.
#[derive(Debug)]
pub struct VulkanInstance {
    pub functions: Vec<ResolvedEntry>,
    pub available_extensions: Vec<VkExtensionProperties>,
    pub enabled_extensions: Vec<String>,
    pub instance: VkInstance,
    pub physical_devices: Vec<VulkanPhysicalDevice>,
    pub step: InstanceStep,
}

/// `device` is what a blank snapshot of `handle` becomes once `report` is
/// loaded into it.
pub open spec fn holds_report(
    device: VulkanPhysicalDevice,
    handle: VkPhysicalDevice,
    report: PhysicalDeviceReport,
) -> bool {
    exists|blank: VulkanPhysicalDevice| #[trigger]
        blank.is_blank(handle) && device == blank.with_report(report)
}

/// The first device whose report cannot be loaded.
pub open spec fn is_first_failing_report(devices: Seq<EnumeratedDevice>, i: int) -> bool {
    &&& 0 <= i < devices.len()
    &&& VulkanPhysicalDevice::report_error(devices[i].report) is Some
    &&& forall|j: int|
        0 <= j < i ==> VulkanPhysicalDevice::report_error((#[trigger] devices[j]).report) is None
}

/// Every report can be loaded.
pub open spec fn all_reports_load(devices: Seq<EnumeratedDevice>) -> bool {
    forall|j: int|
        0 <= j < devices.len() ==> VulkanPhysicalDevice::report_error(
            (#[trigger] devices[j]).report,
        ) is None
}

/// What taking the exported and the global addresses does.
///
/// It fails with the error of the first exported symbol that is missing,
/// or else of the first global one, and then changes nothing. On success
/// the resolved entries are added to those the instance holds, the
/// exported ones first.
pub open spec fn global_functions_loaded(
    before: VulkanInstance,
    after: VulkanInstance,
    exported: Seq<u64>,
    global: Seq<u64>,
    loaded: Result<(), VulkanInitError>,
) -> bool {
    &&& loaded is Ok <==> all_resolved(exported_table(), before.enabled_extensions@, exported)
        && all_resolved(global_table(), before.enabled_extensions@, global)
    &&& loaded matches Err(e) ==> after == before && (tier_failure(
        exported_table(),
        before.enabled_extensions@,
        exported,
        e,
    ) || (all_resolved(exported_table(), before.enabled_extensions@, exported) && tier_failure(
        global_table(),
        before.enabled_extensions@,
        global,
        e,
    )))
    &&& loaded is Ok ==> {
        &&& resolved_view(after.functions@) == resolved_view(before.functions@) + resolved_prefix(
            exported_table(),
            before.enabled_extensions@,
            exported,
            exported_table().len() as int,
        ) + resolved_prefix(
            global_table(),
            before.enabled_extensions@,
            global,
            global_table().len() as int,
        )
        &&& after.available_extensions == before.available_extensions
        &&& after.enabled_extensions == before.enabled_extensions
        &&& after.instance == before.instance
        &&& after.physical_devices == before.physical_devices
        &&& after.step == before.step
    }
}

/// What taking the reply of the instance extension enumeration does: the
/// list is kept when the call succeeded and reported at least one
/// extension; otherwise nothing changes.
pub open spec fn available_extensions_loaded(
    before: VulkanInstance,
    after: VulkanInstance,
    result: VkResult,
    extensions: Vec<VkExtensionProperties>,
    loaded: Result<(), VulkanInitError>,
) -> bool {
    &&& loaded is Err <==> (result != VkResult_VK_SUCCESS || extensions@.len() == 0)
    &&& loaded matches Err(e) ==> e == VulkanInitError::UNLOADABLE_EXTENSIONS && after == before
    &&& loaded is Ok ==> after == (VulkanInstance { available_extensions: extensions, ..before })
}

/// What checking the desired extensions returns: success exactly when
/// every desired name is available, and otherwise the first desired name
/// that is not.
pub open spec fn extensions_checked(
    instance: VulkanInstance,
    valid: Result<(), VulkanInitError>,
) -> bool {
    &&& valid is Ok <==> has_all_extensions(
        instance.available_extensions@,
        instance.enabled_extensions@,
    )
    &&& valid matches Err(e) ==> exists|i: int|
        #![trigger instance.enabled_extensions@[i]]
        is_first_missing(instance.available_extensions@, instance.enabled_extensions@, i)
            && (e matches VulkanInitError::UNAVAILABLE_EXTENSION(name) && name@
            == instance.enabled_extensions@[i]@)
}

/// What taking the reply of instance creation does: the handle is kept
/// when the call succeeded and returned one; otherwise nothing changes.
pub open spec fn vulkan_instantiated(
    before: VulkanInstance,
    after: VulkanInstance,
    result: VkResult,
    instance: VkInstance,
    created: Result<(), VulkanInitError>,
) -> bool {
    &&& created is Err <==> (result != VkResult_VK_SUCCESS || instance == VK_NULL_HANDLE)
    &&& created matches Err(e) ==> e == VulkanInitError::FAILED_INSTANTIATING_VULKAN && after
        == before
    &&& created is Ok ==> after == (VulkanInstance { instance, ..before })
}

/// What taking the instance-level addresses does.
///
/// It fails with the error of the first wanted symbol that is missing,
/// and then changes nothing. On success the resolved entries are added to
/// those the instance holds.
pub open spec fn instance_functions_loaded(
    before: VulkanInstance,
    after: VulkanInstance,
    addresses: Seq<u64>,
    loaded: Result<(), VulkanInitError>,
) -> bool {
    &&& loaded is Ok <==> all_resolved(instance_table(), before.enabled_extensions@, addresses)
    &&& loaded matches Err(e) ==> after == before && tier_failure(
        instance_table(),
        before.enabled_extensions@,
        addresses,
        e,
    )
    &&& loaded is Ok ==> {
        &&& resolved_view(after.functions@) == resolved_view(before.functions@) + resolved_prefix(
            instance_table(),
            before.enabled_extensions@,
            addresses,
            instance_table().len() as int,
        )
        &&& after.available_extensions == before.available_extensions
        &&& after.enabled_extensions == before.enabled_extensions
        &&& after.instance == before.instance
        &&& after.physical_devices == before.physical_devices
        &&& after.step == before.step
    }
}

/// What taking the reply of the physical device enumeration does.
///
/// When the call failed or found no device, nothing changes. Otherwise a
/// snapshot is added for each device in turn, up to and including the
/// first whose report cannot be loaded; that report's error is returned.
pub open spec fn physical_devices_loaded(
    before: VulkanInstance,
    after: VulkanInstance,
    result: VkResult,
    devices: Seq<EnumeratedDevice>,
    loaded: Result<(), VulkanInitError>,
) -> bool {
    &&& after.functions == before.functions
    &&& after.available_extensions == before.available_extensions
    &&& after.enabled_extensions == before.enabled_extensions
    &&& after.instance == before.instance
    &&& after.step == before.step
    &&& forall|j: int|
        0 <= j < before.physical_devices@.len() ==> #[trigger] after.physical_devices@[j]
            == before.physical_devices@[j]
    &&& result != VkResult_VK_SUCCESS || devices.len() == 0 ==> loaded == Err::<
        (),
        VulkanInitError,
    >(VulkanInitError::UNAVAILABLE_VULKAN_PHYSICAL_DEVICES) && after.physical_devices
        == before.physical_devices
    &&& result == VkResult_VK_SUCCESS && devices.len() > 0 ==> {
        &&& loaded is Ok <==> all_reports_load(devices)
        &&& loaded is Ok ==> after.physical_devices@.len() == before.physical_devices@.len()
            + devices.len()
        &&& loaded matches Err(e) ==> exists|k: int|
            #![trigger devices[k]]
            is_first_failing_report(devices, k) && VulkanPhysicalDevice::report_error(
                devices[k].report,
            ) == Some(e) && after.physical_devices@.len() == before.physical_devices@.len() + k
                + 1
        &&& forall|j: int|
            before.physical_devices@.len() <= j < after.physical_devices@.len() ==> holds_report(
                #[trigger] after.physical_devices@[j],
                devices[j - before.physical_devices@.len()].handle,
                devices[j - before.physical_devices@.len()].report,
            )
    }
}

/// The step that follows `step` once it has succeeded.
pub open spec fn step_after(step: InstanceStep) -> InstanceStep {
    match step {
        InstanceStep::LoadGlobalFunctions => InstanceStep::LoadAvailableExtensions,
        InstanceStep::LoadAvailableExtensions => InstanceStep::InstantiateVulkan,
        InstanceStep::InstantiateVulkan => InstanceStep::LoadInstanceFunctions,
        InstanceStep::LoadInstanceFunctions => InstanceStep::LoadPhysicalDevices,
        InstanceStep::LoadPhysicalDevices => InstanceStep::Ready,
        InstanceStep::Ready => InstanceStep::Ready,
    }
}

/// The reply is the one that `step` waits for.
pub open spec fn reply_fits(step: InstanceStep, reply: InstanceReply) -> bool {
    match step {
        InstanceStep::LoadGlobalFunctions => reply is GlobalFunctions,
        InstanceStep::LoadAvailableExtensions => reply is AvailableExtensions,
        InstanceStep::InstantiateVulkan => reply is Instantiated,
        InstanceStep::LoadInstanceFunctions => reply is InstanceFunctions,
        InstanceStep::LoadPhysicalDevices => reply is PhysicalDevices,
        InstanceStep::Ready => false,
    }
}

/// The outcome of a step without the step it leads to.
pub open spec fn step_result(advanced: Result<InstanceStep, VulkanInitError>) -> Result<
    (),
    VulkanInitError,
> {
    match advanced {
        Ok(_) => Ok(()),
        Err(e) => Err(e),
    }
}

/// What one step of the bootstrap does.
///
/// A reply that the current step does not wait for is ignored. A reply
/// that fits is handled as by the function that the step is named after;
/// the reply of the extension enumeration is also checked against the
/// desired extensions. Success moves the instance to the following step;
/// an error leaves it where it is.
pub open spec fn bootstrap_advanced(
    before: VulkanInstance,
    after: VulkanInstance,
    reply: InstanceReply,
    advanced: Result<InstanceStep, VulkanInitError>,
) -> bool {
    let kept = VulkanInstance { step: before.step, ..after };
    if !reply_fits(before.step, reply) {
        after == before && advanced == Ok::<InstanceStep, VulkanInitError>(before.step)
    } else {
        &&& match advanced {
            Ok(next) => next == step_after(before.step) && after.step == next,
            Err(_) => after.step == before.step,
        }
        &&& match reply {
            InstanceReply::GlobalFunctions { exported, global } => global_functions_loaded(
                before,
                kept,
                exported@,
                global@,
                step_result(advanced),
            ),
            InstanceReply::AvailableExtensions { result, extensions } => if result
                != VkResult_VK_SUCCESS || extensions@.len() == 0 {
                after == before && advanced == Err::<InstanceStep, VulkanInitError>(
                    VulkanInitError::UNLOADABLE_EXTENSIONS,
                )
            } else {
                kept == (VulkanInstance { available_extensions: extensions, ..before })
                    && extensions_checked(kept, step_result(advanced))
            },
            InstanceReply::Instantiated { result, instance } => vulkan_instantiated(
                before,
                kept,
                result,
                instance,
                step_result(advanced),
            ),
            InstanceReply::InstanceFunctions { addresses } => instance_functions_loaded(
                before,
                kept,
                addresses@,
                step_result(advanced),
            ),
            InstanceReply::PhysicalDevices { result, devices } => physical_devices_loaded(
                before,
                kept,
                result,
                devices@,
                step_result(advanced),
            ),
        }
    }
}

impl VulkanInstance {
    /// The state before any native call: the desired extensions are
    /// recorded and nothing is resolved. Fails when the native library
    /// could not be loaded.
    pub fn new(desired_extensions: Vec<String>, library_loaded: bool) -> (created: Result<
        Self,
        VulkanInitError,
    >)
        ensures
            created is Ok <==> library_loaded,
            created matches Err(e) ==> e == VulkanInitError::UNLOADABLE_LIBRARY,
            created matches Ok(instance) ==> {
                &&& instance.functions@.len() == 0
                &&& instance.available_extensions@.len() == 0
                &&& instance.enabled_extensions == desired_extensions
                &&& instance.instance == VK_NULL_HANDLE
                &&& instance.physical_devices@.len() == 0
                &&& instance.step == InstanceStep::LoadGlobalFunctions
            },
    {
        if !library_loaded {
            return Err(VulkanInitError::UNLOADABLE_LIBRARY);
        }
        Ok(
            VulkanInstance {
                functions: Vec::new(),
                available_extensions: Vec::new(),
                enabled_extensions: desired_extensions,
                instance: VK_NULL_HANDLE,
                physical_devices: Vec::new(),
                step: InstanceStep::LoadGlobalFunctions,
            },
        )
    }

    /// Takes the addresses of the exported and of the global entries.
    ///
    /// Fails with the error of the first exported symbol that is missing,
    /// or else of the first global one. On success the resolved entries
    /// are added to those the instance holds.
    pub fn load_global_functions(&mut self, exported: &Vec<u64>, global: &Vec<u64>) -> (loaded:
        Result<(), VulkanInitError>)
        ensures
            global_functions_loaded(*old(self), *final(self), exported@, global@, loaded),
    {
        let exported_rows = exported_entries();
        let global_rows = global_entries();
        let mut from_library = match resolve_tier(&exported_rows, &self.enabled_extensions, exported) {
            Ok(entries) => entries,
            Err(e) => {
                return Err(e);
            },
        };
        let mut from_loader = match resolve_tier(&global_rows, &self.enabled_extensions, global) {
            Ok(entries) => entries,
            Err(e) => {
                return Err(e);
            },
        };
        let ghost before = self.functions@;
        let ghost first = from_library@;
        let ghost second = from_loader@;
        self.functions.append(&mut from_library);
        self.functions.append(&mut from_loader);
        proof {
            assert(resolved_view(self.functions@) =~= resolved_view(before) + resolved_view(first)
                + resolved_view(second));
        }
        Ok(())
    }

    /// Takes the reply of the instance extension enumeration: the list is
    /// kept when the call succeeded and reported at least one extension.
    pub fn load_available_extensions(
        &mut self,
        result: VkResult,
        extensions: Vec<VkExtensionProperties>,
    ) -> (loaded: Result<(), VulkanInitError>)
        ensures
            available_extensions_loaded(*old(self), *final(self), result, extensions, loaded),
    {
        if result != VkResult_VK_SUCCESS || extensions.len() == 0 {
            return Err(VulkanInitError::UNLOADABLE_EXTENSIONS);
        }
        self.available_extensions = extensions;
        Ok(())
    }

    /// The names of the available extensions as text, one line each.
    pub fn list_available_extensions(&self) -> (lines: Vec<String>)
        requires
            names_are_text(self.available_extensions@),
        ensures
            lines@.len() == self.available_extensions@.len(),
            forall|i: int|
                0 <= i < self.available_extensions@.len() ==> (#[trigger] lines@[i])@
                    == decode_utf8(self.available_extensions@[i].extensionName@),
    {
        extension_lines(&self.available_extensions)
    }

    /// Checks the extensions that were asked for against those available.
    ///
    /// Succeeds exactly when every desired name is available; otherwise
    /// the error holds the first desired name that is not.
    pub fn extensions_are_valid(&self) -> (valid: Result<(), VulkanInitError>)
        ensures
            extensions_checked(*self, valid),
    {
        match first_missing_extension(&self.available_extensions, &self.enabled_extensions) {
            None => Ok(()),
            Some(i) => Err(VulkanInitError::UNAVAILABLE_EXTENSION(self.enabled_extensions[i].clone())),
        }
    }

    /// What instance creation is asked for.
    pub open spec fn create_info(self) -> VkInstanceCreateInfo {
        VkInstanceCreateInfo {
            flags: 0,
            applicationInfo: VkApplicationInfo {
                applicationVersion: api_version(0, 1, 0, 0),
                engineVersion: api_version(0, 1, 0, 0),
                apiVersion: api_version(0, 1, 0, 0),
            },
            enabledLayerCount: 0,
            enabledExtensionCount: self.enabled_extensions@.len() as u32,
        }
    }

    /// Builds the block that instance creation is called with: version
    /// 1.0.0 throughout, no layers, and the desired extensions.
    pub fn instance_create_info(&self) -> (info: VkInstanceCreateInfo)
        ensures
            info == self.create_info(),
    {
        let version = make_api_version(0, 1, 0, 0);
        VkInstanceCreateInfo {
            flags: 0,
            applicationInfo: VkApplicationInfo {
                applicationVersion: version,
                engineVersion: version,
                apiVersion: version,
            },
            enabledLayerCount: 0,
            enabledExtensionCount: #[verifier::truncate] (self.enabled_extensions.len() as u32),
        }
    }

    /// Takes the reply of instance creation: the handle is kept when the
    /// call succeeded and returned a handle.
    pub fn instantiate_vulkan(
        &mut self,
        result: VkResult,
        instance: VkInstance,
    ) -> (created: Result<
        (),
        VulkanInitError,
    >)
        ensures
            vulkan_instantiated(*old(self), *final(self), result, instance, created),
    {
        if result != VkResult_VK_SUCCESS || instance == VK_NULL_HANDLE {
            return Err(VulkanInitError::FAILED_INSTANTIATING_VULKAN);
        }
        self.instance = instance;
        Ok(())
    }

    /// Takes the addresses of the instance-level entries.
    ///
    /// An entry that an extension owns is wanted only when the instance
    /// enabled that extension. Fails with the error of the first wanted
    /// symbol that is missing.
    pub fn load_vulkan_instance_functions(&mut self, addresses: &Vec<u64>) -> (loaded: Result<
        (),
        VulkanInitError,
    >)
        ensures
            instance_functions_loaded(*old(self), *final(self), addresses@, loaded),
    {
        let rows = instance_entries();
        let mut entries = match resolve_tier(&rows, &self.enabled_extensions, addresses) {
            Ok(entries) => entries,
            Err(e) => {
                return Err(e);
            },
        };
        let ghost before = self.functions@;
        let ghost added = entries@;
        self.functions.append(&mut entries);
        proof {
            assert(resolved_view(self.functions@) =~= resolved_view(before) + resolved_view(added));
        }
        Ok(())
    }

    /// The address that was resolved for a symbol, if it was.
    pub fn function_address(&self, name: &str) -> (address: Option<u64>)
        ensures
            address == address_of(resolved_view(self.functions@), name@),
    {
        find_address(&self.functions, name)
    }

    /// Takes the reply of the physical device enumeration and loads each
    /// device's report.
    ///
    /// Fails when the call failed or found no device. Otherwise a snapshot
    /// is added for each device in turn, up to and including the first
    /// whose report cannot be loaded; that report's error is returned.
    pub fn load_physical_devices(
        &mut self,
        result: VkResult,
        devices: Vec<EnumeratedDevice>,
    ) -> (loaded:
        Result<(), VulkanInitError>)
        ensures
            physical_devices_loaded(*old(self), *final(self), result, devices@, loaded),
    {
        if result != VkResult_VK_SUCCESS || devices.len() == 0 {
            return Err(VulkanInitError::UNAVAILABLE_VULKAN_PHYSICAL_DEVICES);
        }
        let ghost all = devices@;
        let ghost start = self.physical_devices@.len();
        let total = devices.len();
        let mut rest = devices;
        let mut done: usize = 0;
        while done < total
            invariant
                done <= total,
                total == all.len(),
                total > 0,
                result == VkResult_VK_SUCCESS,
                all == devices@,
                rest@ == all.skip(done as int),
                start == old(self).physical_devices@.len(),
                self.physical_devices@.len() == start + done,
                self.functions == old(self).functions,
                self.available_extensions == old(self).available_extensions,
                self.enabled_extensions == old(self).enabled_extensions,
                self.instance == old(self).instance,
                self.step == old(self).step,
                forall|j: int|
                    0 <= j < start ==> #[trigger] self.physical_devices@[j]
                        == old(self).physical_devices@[j],
                forall|j: int|
                    0 <= j < done ==> VulkanPhysicalDevice::report_error(
                        (#[trigger] all[j]).report,
                    ) is None,
                forall|j: int|
                    start <= j < start + done ==> holds_report(
                        #[trigger] self.physical_devices@[j],
                        all[j - start].handle,
                        all[j - start].report,
                    ),
            decreases total - done,
        {
            let EnumeratedDevice { handle, report } = rest.remove(0);
            proof {
                assert(all.skip(done as int)[0] == all[done as int]);
                assert(rest@ =~= all.skip(done as int + 1));
            }
            let mut snapshot = VulkanPhysicalDevice::new(handle);
            let ghost blank = snapshot;
            let outcome = snapshot.load_infos(report);
            proof {
                assert(blank.is_blank(handle) && snapshot == blank.with_report(report));
                assert(holds_report(snapshot, handle, report));
            }
            self.physical_devices.push(snapshot);
            match outcome {
                Err(e) => {
                    proof {
                        assert(is_first_failing_report(all, done as int));
                    }
                    return Err(e);
                },
                Ok(_) => {},
            }
            done = done + 1;
        }
        Ok(())
    }

    /// Takes the reply to the current step of the bootstrap and moves on.
    ///
    /// The steps come in this order: the exported and global entries, the
    /// available extensions together with the check of the desired ones,
    /// instance creation, the instance-level entries, the physical
    /// devices. The step returned is the one to perform next.
    pub fn advance(
        &mut self,
        reply: InstanceReply,
    ) -> (advanced: Result<InstanceStep, VulkanInitError>)
        ensures
            bootstrap_advanced(*old(self), *final(self), reply, advanced),
    {
        let outcome = match (self.step, reply) {
            (InstanceStep::LoadGlobalFunctions, InstanceReply::GlobalFunctions { exported, global }) => {
                self.load_global_functions(&exported, &global)
            },
            (
                InstanceStep::LoadAvailableExtensions,
                InstanceReply::AvailableExtensions { result, extensions },
            ) => {
                match self.load_available_extensions(result, extensions) {
                    Err(e) => Err(e),
                    Ok(_) => self.extensions_are_valid(),
                }
            },
            (InstanceStep::InstantiateVulkan, InstanceReply::Instantiated { result, instance }) => {
                self.instantiate_vulkan(result, instance)
            },
            (InstanceStep::LoadInstanceFunctions, InstanceReply::InstanceFunctions { addresses }) => {
                self.load_vulkan_instance_functions(&addresses)
            },
            (InstanceStep::LoadPhysicalDevices, InstanceReply::PhysicalDevices { result, devices }) => {
                self.load_physical_devices(result, devices)
            },
            _ => {
                return Ok(self.step);
            },
        };
        let ghost kept = *self;
        match outcome {
            Err(e) => Err(e),
            Ok(_) => {
                let next = match self.step {
                    InstanceStep::LoadGlobalFunctions => InstanceStep::LoadAvailableExtensions,
                    InstanceStep::LoadAvailableExtensions => InstanceStep::InstantiateVulkan,
                    InstanceStep::InstantiateVulkan => InstanceStep::LoadInstanceFunctions,
                    InstanceStep::LoadInstanceFunctions => InstanceStep::LoadPhysicalDevices,
                    InstanceStep::LoadPhysicalDevices => InstanceStep::Ready,
                    InstanceStep::Ready => InstanceStep::Ready,
                };
                self.step = next;
                proof {
                    assert(kept == (VulkanInstance { step: old(self).step, ..*self }));
                }
                Ok(next)
            },
        }
    }

    /// Selects a physical device and prepares a logical device on it.
    pub fn create_logical_device(
        &mut self,
        desired_extensions: Vec<String>,
        desired_capabilites: &[VkQueueFlags],
        presentation_support: &Vec<Vec<bool>>,
        presentation_mode: VkPresentModeKHR,
    ) -> (device: Result<VulkanLogicalDevice, VulkanInitError>)
        ensures
            selection_outcome(
                *old(self),
                *final(self),
                desired_extensions@,
                desired_capabilites@,
                presentation_support@,
                presentation_mode,
                device,
            ),
    {
        VulkanLogicalDevice::new(
            self,
            desired_extensions,
            desired_capabilites,
            presentation_support,
            presentation_mode,
        )
    }

    /// Gives up the instance. The handle returned is the one to destroy,
    /// after every object made from the instance has been destroyed.
    pub fn destroy(self) -> (handle: VkInstance)
        ensures
            handle == self.instance,
    {
        self.instance
    }
}

} // verus!
