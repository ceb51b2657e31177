//! Logical-device construction for the secondary backend: the native API
//! has no queue-family concept at this abstraction level, so the device
//! simply retains the chosen physical device's native handle.

use crate::api::device::DeviceDesc;
use crate::api::physical_device::PhysicalDevice;
use crate::metal::instance::MetalInstance;
use crate::metal::MetalError;
use vstd::prelude::*;

verus! {

/// The constructed logical device: the retained native device handle.
#[derive(Clone, Copy, Debug, PartialEq, Eq, Structural)]
pub struct MetalDevice {
    /// The retained native device handle.
    pub device: u64,
}

impl MetalDevice {
    /// Builds the logical device by retaining the chosen physical device's
    /// native handle; a physical device of another backend is refused with a
    /// dedicated error.
    pub fn new(_instance: &MetalInstance, desc: &DeviceDesc) -> (r: Result<MetalDevice, MetalError>)
        ensures
            (r is Ok) == (desc.physical_device is Metal),
            desc.physical_device matches PhysicalDevice::Metal(pd) ==> (r matches Ok(d)
                && d.device == pd.device),
            desc.physical_device is Vulkan ==> r == Err::<MetalDevice, MetalError>(
                MetalError::InvalidPhysicalDevice,
            ),
    {
        let physical_device = match &desc.physical_device {
            PhysicalDevice::Metal(physical_device) => physical_device,
            PhysicalDevice::Vulkan(_) => {
                return Err(MetalError::InvalidPhysicalDevice);
            },
        };

        Ok(MetalDevice { device: physical_device.device })
    }
}

} // verus!
