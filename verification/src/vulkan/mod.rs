//! Primary backend: bootstrap over a Vulkan-style driver, with full
//! layer/extension negotiation, diagnostic-message routing and queue-topology
//! selection.

mod device;
mod instance;
mod physical_device;

pub use device::{
    build_queue_create_entries, family_qualifies, find_direct_queue_family_index,
    find_queue_family_index, find_queue_family_index_with_fallback, find_queue_family_indices,
    lemma_device_plan_valid, lemma_find_queue_family_index_characterization,
    lemma_queue_create_entries_distinct, lemma_queue_topology_valid, scan_families,
    spec_fallback_queue_family,
    spec_find_direct_queue_family_index, spec_find_queue_family_index,
    spec_find_queue_family_indices, spec_queue_create_entries, spec_vulkan_device_models,
    vulkan_device_eqv, DeviceQueueCreateEntry, QueueFamilyProperties, QueueTopology, VulkanDevice,
    ALLOCATOR_CREATE_BUFFER_DEVICE_ADDRESS, QUEUE_COMPUTE, QUEUE_GRAPHICS, QUEUE_TRANSFER,
};
pub use instance::{
    contains_string, disabled_validation_features, enabled_validation_features,
    ext_debug_utils_name, khr_surface_name, khronos_validation_layer_name,
    lemma_refused_layer_suppresses_extension_request, route_debug_message,
    spec_bootstrap_err, spec_bootstrap_ok, spec_debug_utils_available,
    spec_ext_debug_utils_name, spec_instance_models, spec_khr_surface_name,
    spec_khronos_validation_layer_name, spec_severity_level, spec_severity_recognized,
    spec_validation_layer_supported, DebugLogRecord, InstanceExtensions, InstanceLayers, LogLevel,
    VulkanDriver, VulkanInstance, DEBUG_SEVERITY_ERROR, DEBUG_SEVERITY_INFO,
    DEBUG_SEVERITY_VERBOSE, DEBUG_SEVERITY_WARNING, DEBUG_TYPE_GENERAL, DEBUG_TYPE_PERFORMANCE,
    DEBUG_TYPE_VALIDATION, VALIDATION_FEATURE_BEST_PRACTICES, VALIDATION_FEATURE_DEBUG_PRINTF,
    VALIDATION_FEATURE_SYNCHRONIZATION_VALIDATION,
};
pub use physical_device::{vulkan_physical_device_eqv, VulkanPhysicalDevice};

use vstd::prelude::*;
use vstd::string::StringExecFns;

verus! {

/// Failures of the primary backend, one variant per failure kind so that a
/// caller can tell a refused capability request from a raw driver status, a
/// text-decoding failure, a wrong-backend handle and an adapter without a
/// usable queue family.
#[derive(Debug, PartialEq, Eq)]
pub enum VulkanError {
    /// A requested layer or extension is not in the supported set; carries the
    /// name that was refused.
    CapabilityUnavailable(String),
    /// A raw status code returned by the driver, propagated verbatim.
    Native(i32),
    /// A native string was not valid text.
    InvalidUtf8,
    /// A physical-device handle of another backend was passed in.
    InvalidPhysicalDevice,
    /// No queue family of the adapter covers graphics, compute and transfer.
    NoSuitableQueueFamily,
}

impl VulkanError {
    /// The description of the error.
    pub open spec fn spec_message(self) -> Seq<char> {
        match self {
            VulkanError::CapabilityUnavailable(n) => "unsupported capability: "@ + n@,
            VulkanError::Native(_) => "the driver returned an error status"@,
            VulkanError::InvalidUtf8 => "invalid text in a native string"@,
            VulkanError::InvalidPhysicalDevice => "invalid physical device"@,
            VulkanError::NoSuitableQueueFamily => "failed to find queue family indices"@,
        }
    }

    /// A human-readable description of the failure.
    pub fn message(&self) -> (r: String)
        ensures
            r@ == self.spec_message(),
    {
        match self {
            VulkanError::CapabilityUnavailable(n) => String::from_str(
                "unsupported capability: ",
            ).concat(n.as_str()),
            VulkanError::Native(_) => String::from_str("the driver returned an error status"),
            VulkanError::InvalidUtf8 => String::from_str("invalid text in a native string"),
            VulkanError::InvalidPhysicalDevice => String::from_str("invalid physical device"),
            VulkanError::NoSuitableQueueFamily => String::from_str(
                "failed to find queue family indices",
            ),
        }
    }
}

} // verus!
