//! The dispatch facade: backend selection, instance construction, and the
//! operations every backend answers. Each operation is an exhaustive match
//! on the active backend tag; there is no fallback or retry across backends.

use crate::api::device::{spec_device_desc_wf, Device, DeviceDesc};
use crate::api::physical_device::PhysicalDevice;
use crate::api::Error;
use crate::metal::{spec_metal_instance_models, MetalDriver, MetalError, MetalInstance};
use crate::vulkan::{
    spec_bootstrap_err, spec_bootstrap_ok, spec_instance_models, spec_vulkan_device_models,
    VulkanDriver, VulkanInstance,
};
use vstd::prelude::*;

verus! {

/// Flag bit: request diagnostic instrumentation (the validation layer and
/// the diagnostic-callback extension).
pub const ENABLE_VALIDATION: u32 = 0x1;

/// The instance flag bitset.
#[derive(Clone, Copy, Debug, PartialEq, Eq, Structural)]
pub struct InstanceFlags {
    pub bits: u32,
}

impl InstanceFlags {
    /// Whether the validation bit is set.
    pub open spec fn spec_validation(self) -> bool {
        self.bits & ENABLE_VALIDATION == ENABLE_VALIDATION
    }

    /// Whether diagnostic instrumentation was requested.
    pub fn validation(&self) -> (r: bool)
        ensures
            r == self.spec_validation(),
    {
        (self.bits & ENABLE_VALIDATION) == ENABLE_VALIDATION
    }
}

impl Default for InstanceFlags {
    /// No flags set.
    fn default() -> (r: Self)
        ensures
            r.bits == 0,
    {
        InstanceFlags { bits: 0 }
    }
}

/// The compiled-in backends, in priority order.
#[derive(Clone, Copy, Debug, PartialEq, Eq, Structural)]
pub enum BackendType {
    Metal,
    Vulkan,
}

impl Default for BackendType {
    /// The first backend in priority order.
    fn default() -> (r: Self)
        ensures
            r == BackendType::Metal,
    {
        BackendType::Metal
    }
}

/// What instance construction is asked for: the flags and the backend to
/// dispatch to; immutable after construction.
#[derive(Clone, Copy, Debug)]
pub struct InstanceDesc {
    pub flags: InstanceFlags,
    pub backend_type: BackendType,
}

impl Default for InstanceDesc {
    /// No flags, default backend.
    fn default() -> (r: Self)
        ensures
            r.flags.bits == 0,
            r.backend_type == BackendType::Metal,
    {
        InstanceDesc { flags: InstanceFlags { bits: 0 }, backend_type: BackendType::Metal }
    }
}

/// The native drivers this process can reach, each an externally-owned
/// resource queried once and handed in as plain values; a backend whose
/// driver is absent is not available to [`Instance::new`].
pub struct DriverHost {
    /// The Vulkan-style driver, when the loader found one.
    pub vulkan: Option<VulkanDriver>,
    /// The Metal-style driver, when the platform exposes one.
    pub metal: Option<MetalDriver>,
}

/// The top-level handle to a driver session, tagged with the active backend.
pub enum Instance {
    Metal(MetalInstance),
    Vulkan(VulkanInstance),
}

impl Instance {
    /// The backend this instance dispatches to.
    pub open spec fn spec_backend(self) -> BackendType {
        match self {
            Instance::Metal(_) => BackendType::Metal,
            Instance::Vulkan(_) => BackendType::Vulkan,
        }
    }

    /// The physical devices the instance cached at bootstrap.
    pub open spec fn spec_physical_devices(self) -> Seq<PhysicalDevice> {
        match self {
            Instance::Metal(i) => i.physical_devices@,
            Instance::Vulkan(i) => i.physical_devices@,
        }
    }

    /// Creates an instance of the requested backend over the matching
    /// driver of `host`. A backend whose driver is absent is a configuration
    /// error; otherwise the backend's own bootstrap decides, and its result
    /// is returned unchanged under the backend's tag.
    ///
    /// The native driver connection is process-wide state: the caller must
    /// not hold another session that the underlying driver forbids
    /// concurrently. That precondition cannot be checked here and is the
    /// caller's responsibility.
    pub fn new(desc: &InstanceDesc, host: &DriverHost) -> (r: Result<Instance, Error>)
        ensures
            r matches Ok(i) ==> i.spec_backend() == desc.backend_type,
            desc.backend_type == BackendType::Metal && host.metal is None ==> r == Err::<
                Instance,
                Error,
            >(Error::Configuration(BackendType::Metal)),
            desc.backend_type == BackendType::Vulkan && host.vulkan is None ==> r == Err::<
                Instance,
                Error,
            >(Error::Configuration(BackendType::Vulkan)),
            desc.backend_type == BackendType::Metal ==> (host.metal matches Some(d) ==> {
                &&& (r is Ok) == (d.devices is Some)
                &&& (r matches Ok(i) ==> (i matches Instance::Metal(mi)
                    && spec_metal_instance_models(mi, d)))
                &&& (r matches Err(e) ==> e == Error::MetalBackend(MetalError::EnumerationFailed))
            }),
            desc.backend_type == BackendType::Vulkan ==> (host.vulkan matches Some(d) ==> {
                &&& (r is Ok) == spec_bootstrap_ok(desc.flags.spec_validation(), d)
                &&& (r matches Ok(i) ==> (i matches Instance::Vulkan(vi) && spec_instance_models(
                    vi,
                    desc.flags.spec_validation(),
                    d,
                )))
                &&& (r matches Err(e) ==> (e matches Error::VulkanBackend(ve)
                    && spec_bootstrap_err(ve, desc.flags.spec_validation(), d)))
            }),
    {
        match desc.backend_type {
            BackendType::Metal => match &host.metal {
                Some(driver) => match MetalInstance::new(desc, driver) {
                    Ok(instance) => Ok(Instance::Metal(instance)),
                    Err(e) => Err(e),
                },
                None => Err(Error::Configuration(BackendType::Metal)),
            },
            BackendType::Vulkan => match &host.vulkan {
                Some(driver) => match VulkanInstance::new(desc, driver) {
                    Ok(instance) => Ok(Instance::Vulkan(instance)),
                    Err(e) => Err(Error::VulkanBackend(e)),
                },
                None => Err(Error::Configuration(BackendType::Vulkan)),
            },
        }
    }

    /// The physical devices enumerated at bootstrap: a stable view in native
    /// enumeration order, identical across calls for the instance's
    /// lifetime.
    pub fn get_physical_devices(&self) -> (r: &[PhysicalDevice])
        ensures
            r@ == self.spec_physical_devices(),
    {
        match self {
            Instance::Metal(instance) => instance.get_physical_devices(),
            Instance::Vulkan(instance) => instance.get_physical_devices(),
        }
    }

    /// Builds a logical device on the chosen physical device, dispatched to
    /// the active backend. A physical device tagged for the other backend is
    /// refused with that backend's dedicated error.
    pub fn create_device(&self, desc: &DeviceDesc) -> (r: Result<Device, Error>)
        requires
            spec_device_desc_wf(*desc),
        ensures
            self is Metal ==> (desc.physical_device matches PhysicalDevice::Metal(pd) ==> (r
                matches Ok(d) && d matches Device::Metal(md) && md.device == pd.device)),
            self is Metal && desc.physical_device is Vulkan ==> r == Err::<Device, Error>(
                Error::MetalBackend(MetalError::InvalidPhysicalDevice),
            ),
            self is Vulkan && desc.physical_device is Metal ==> r == Err::<Device, Error>(
                Error::VulkanBackend(crate::vulkan::VulkanError::InvalidPhysicalDevice),
            ),
            self is Vulkan ==> (desc.physical_device matches PhysicalDevice::Vulkan(pd) ==> {
                &&& (r is Ok) == (crate::vulkan::spec_find_queue_family_indices(pd.queue_families@)
                    is Some)
                &&& (r matches Ok(d) ==> (d matches Device::Vulkan(vd)
                    && spec_vulkan_device_models(vd, pd)))
                &&& (crate::vulkan::spec_find_queue_family_indices(pd.queue_families@) is None ==> r
                    == Err::<Device, Error>(
                    Error::VulkanBackend(crate::vulkan::VulkanError::NoSuitableQueueFamily),
                ))
            }),
    {
        match self {
            Instance::Metal(instance) => match crate::metal::MetalDevice::new(instance, desc) {
                Ok(device) => Ok(Device::Metal(device)),
                Err(e) => Err(Error::MetalBackend(e)),
            },
            Instance::Vulkan(instance) => match crate::vulkan::VulkanDevice::new(instance, desc) {
                Ok(device) => Ok(Device::Vulkan(device)),
                Err(e) => Err(Error::VulkanBackend(e)),
            },
        }
    }
}

/// Enumerating the same instance twice yields the same sequence of physical
/// devices: equal in length, order and content.
pub proof fn lemma_physical_devices_stable(
    instance: Instance,
    first: Seq<PhysicalDevice>,
    second: Seq<PhysicalDevice>,
)
    requires
        first == instance.spec_physical_devices(),
        second == instance.spec_physical_devices(),
    ensures
        first == second,
        first.len() == second.len(),
        forall|i: int| 0 <= i < first.len() ==> first[i] == second[i],
{
}

} // verus!
