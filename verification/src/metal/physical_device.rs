//! The cached record of one device the secondary backend enumerated: its
//! reported name and a retained native handle.

use crate::api::physical_device::PhysicalDeviceFeatures;
use crate::api::Error;
use vstd::prelude::*;

verus! {

/// One enumerated device: the retained native handle and the name it
/// reported.
pub struct MetalPhysicalDevice {
    /// The device's reported name.
    pub name: String,
    /// The retained native device handle.
    pub device: u64,
}

/// Two records describe the same device: equal name and handle.
pub open spec fn metal_physical_device_eqv(a: MetalPhysicalDevice, b: MetalPhysicalDevice) -> bool {
    a.name@ == b.name@ && a.device == b.device
}

impl MetalPhysicalDevice {
    /// Builds the cached record of one device from its retained handle and
    /// the name it reported.
    pub fn new(name: String, device: u64) -> (r: Result<Self, Error>)
        ensures
            r matches Ok(pd) && pd.name@ == name@ && pd.device == device,
    {
        Ok(MetalPhysicalDevice { name, device })
    }

    /// The device's reported name.
    pub fn get_name(&self) -> (r: &str)
        ensures
            r@ == self.name@,
    {
        self.name.as_str()
    }

    /// Feature querying is not implemented for this backend; the call fails
    /// rather than aborting.
    pub fn get_supported_features(&self) -> (r: Result<PhysicalDeviceFeatures, Error>)
        ensures
            r == Err::<PhysicalDeviceFeatures, Error>(Error::Unsupported),
    {
        Err(Error::Unsupported)
    }
}

impl Clone for MetalPhysicalDevice {
    /// Copies the record; the copy describes the same device.
    fn clone(&self) -> (r: Self)
        ensures
            metal_physical_device_eqv(r, *self),
    {
        MetalPhysicalDevice { name: self.name.clone(), device: self.device }
    }
}

} // verus!
