//! The backend-tagged physical-device handle: an immutable, shareable record
//! of one GPU, whose payload is backend-specific.

use crate::api::Error;
use crate::metal::{metal_physical_device_eqv, MetalPhysicalDevice};
use crate::vulkan::{vulkan_physical_device_eqv, VulkanPhysicalDevice};
use vstd::prelude::*;

verus! {

/// One available GPU, tagged with the backend that enumerated it.
pub enum PhysicalDevice {
    Metal(MetalPhysicalDevice),
    Vulkan(VulkanPhysicalDevice),
}

/// The feature set of a physical device; querying it is not implemented in
/// this build.
pub struct PhysicalDeviceFeatures {}

/// Two handles describe the same GPU of the same backend.
pub open spec fn physical_device_eqv(a: PhysicalDevice, b: PhysicalDevice) -> bool {
    match a {
        PhysicalDevice::Metal(pa) => b matches PhysicalDevice::Metal(pb)
            && metal_physical_device_eqv(pa, pb),
        PhysicalDevice::Vulkan(pa) => b matches PhysicalDevice::Vulkan(pb)
            && vulkan_physical_device_eqv(pa, pb),
    }
}

impl PhysicalDevice {
    /// The device's name, whichever backend reported it.
    pub open spec fn spec_name(self) -> Seq<char> {
        match self {
            PhysicalDevice::Metal(pd) => pd.name@,
            PhysicalDevice::Vulkan(pd) => pd.name@,
        }
    }

    /// The native device name, dispatched to the active backend.
    pub fn get_name(&self) -> (r: &str)
        ensures
            r@ == self.spec_name(),
    {
        match self {
            PhysicalDevice::Metal(pd) => pd.get_name(),
            PhysicalDevice::Vulkan(pd) => pd.get_name(),
        }
    }

    /// Feature querying is not implemented in this build; the call fails
    /// rather than aborting.
    pub fn get_supported_features(&self) -> (r: Result<PhysicalDeviceFeatures, Error>)
        ensures
            r == Err::<PhysicalDeviceFeatures, Error>(Error::Unsupported),
    {
        Err(Error::Unsupported)
    }
}

impl Clone for PhysicalDevice {
    /// Copies the handle; the copy describes the same GPU.
    fn clone(&self) -> (r: Self)
        ensures
            physical_device_eqv(r, *self),
    {
        match self {
            PhysicalDevice::Metal(pd) => PhysicalDevice::Metal(pd.clone()),
            PhysicalDevice::Vulkan(pd) => PhysicalDevice::Vulkan(pd.clone()),
        }
    }
}

} // verus!
