//! The backend-tagged logical-device handle and the description a device is
//! built from.

use crate::api::physical_device::{physical_device_eqv, PhysicalDevice};
use crate::metal::MetalDevice;
use crate::vulkan::{vulkan_device_eqv, VulkanDevice};
use vstd::prelude::*;

verus! {

/// What device construction is asked for: the physical device to open the
/// logical device on; a value type.
pub struct DeviceDesc {
    pub physical_device: PhysicalDevice,
}

/// The machine limit device construction relies on: a family index must fit
/// the driver's 32-bit index type.
pub open spec fn spec_device_desc_wf(desc: DeviceDesc) -> bool {
    match desc.physical_device {
        PhysicalDevice::Vulkan(pd) => pd.queue_families@.len() <= u32::MAX,
        PhysicalDevice::Metal(_) => true,
    }
}

impl Clone for DeviceDesc {
    /// Copies the description; the copy names the same GPU.
    fn clone(&self) -> (r: Self)
        ensures
            physical_device_eqv(r.physical_device, self.physical_device),
            spec_device_desc_wf(*self) ==> spec_device_desc_wf(r),
    {
        DeviceDesc { physical_device: self.physical_device.clone() }
    }
}

/// One logical device, tagged with the backend it was built on.
pub enum Device {
    Metal(MetalDevice),
    Vulkan(VulkanDevice),
}

impl Clone for Device {
    /// Copies the handle; the copy describes the same logical device.
    fn clone(&self) -> (r: Self)
        ensures
            self matches Device::Metal(d) ==> (r matches Device::Metal(rd) && rd == d),
            self matches Device::Vulkan(d) ==> (r matches Device::Vulkan(rd)
                && vulkan_device_eqv(rd, *d)),
    {
        match self {
            Device::Metal(d) => Device::Metal(*d),
            Device::Vulkan(d) => Device::Vulkan(d.clone()),
        }
    }
}

} // verus!
