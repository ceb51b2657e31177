//! Instance bootstrap for the secondary backend: the native device-copy API
//! either yields the device list or nothing to retain; there is no
//! negotiation and no diagnostic callback at this layer.

use crate::api::instance::InstanceDesc;
use crate::api::physical_device::{physical_device_eqv, PhysicalDevice};
use crate::api::Error;
use crate::metal::physical_device::{metal_physical_device_eqv, MetalPhysicalDevice};
use crate::metal::MetalError;
use vstd::prelude::*;

verus! {

/// What the native device-copy API reports: the retained device records, or
/// nothing when the copy could not be retained.
pub struct MetalDriver {
    /// The devices the platform exposes, in native order; `None` when the
    /// native copy yields nothing to retain.
    pub devices: Option<Vec<MetalPhysicalDevice>>,
}

/// What a constructed instance holds: one cached record per reported
/// device, in native order.
pub open spec fn spec_metal_instance_models(i: MetalInstance, driver: MetalDriver) -> bool {
    driver.devices matches Some(ds) && i.physical_devices@.len() == ds@.len() && forall|k: int|
        0 <= k < ds@.len() ==> ((#[trigger] i.physical_devices@[k]) matches PhysicalDevice::Metal(
            pd,
        ) && metal_physical_device_eqv(pd, ds@[k]))
}

/// The constructed instance: the physical-device records cached at
/// enumeration time. The state is write-once: nothing mutates it after
/// bootstrap.
pub struct MetalInstance {
    /// The cached physical-device records, in native enumeration order.
    pub physical_devices: Vec<PhysicalDevice>,
}

impl MetalInstance {
    /// Bootstraps an instance over what the native device-copy API
    /// reported: fails when there was nothing to retain, and otherwise
    /// caches one record per device.
    pub fn new(_desc: &InstanceDesc, driver: &MetalDriver) -> (r: Result<Self, Error>)
        ensures
            (r is Ok) == (driver.devices is Some),
            r matches Ok(i) ==> spec_metal_instance_models(i, *driver),
            r matches Err(e) ==> e == Error::MetalBackend(MetalError::EnumerationFailed),
    {
        let devices = match &driver.devices {
            Some(devices) => devices,
            None => {
                return Err(Error::MetalBackend(MetalError::EnumerationFailed));
            },
        };

        let mut physical_devices: Vec<PhysicalDevice> = Vec::new();
        let mut k: usize = 0;
        while k < devices.len()
            invariant
                k <= devices@.len(),
                physical_devices@.len() == k,
                forall|j: int|
                    0 <= j < k ==> ((#[trigger] physical_devices@[j]) matches
                    PhysicalDevice::Metal(pd) && metal_physical_device_eqv(pd, devices@[j])),
            decreases devices@.len() - k,
        {
            let record = devices[k].clone();
            physical_devices.push(PhysicalDevice::Metal(record));
            k = k + 1;
        }

        Ok(MetalInstance { physical_devices })
    }

    /// The cached physical-device list: a stable view, identical across
    /// calls for the instance's lifetime.
    pub fn get_physical_devices(&self) -> (r: &[PhysicalDevice])
        ensures
            r@ == self.physical_devices@,
    {
        self.physical_devices.as_slice()
    }
}

impl Clone for MetalInstance {
    /// Copies the handle; the copy describes the same cached devices.
    fn clone(&self) -> (r: Self)
        ensures
            r.physical_devices@.len() == self.physical_devices@.len(),
            forall|k: int|
                0 <= k < self.physical_devices@.len() ==> physical_device_eqv(
                    #[trigger] r.physical_devices@[k],
                    self.physical_devices@[k],
                ),
    {
        let physical_devices = self.physical_devices.clone();
        proof {
            assert forall|k: int|
                0 <= k < self.physical_devices@.len() implies physical_device_eqv(
                #[trigger] physical_devices@[k],
                self.physical_devices@[k],
            ) by {
                assert(cloned::<PhysicalDevice>(self.physical_devices@[k], physical_devices@[k]));
            }
        }
        MetalInstance { physical_devices }
    }
}

} // verus!
