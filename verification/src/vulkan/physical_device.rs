//! The cached record of one adapter the primary backend enumerated: its
//! name, its raw native handle and the queue families it reports, all
//! immutable snapshots taken once at enumeration time.

use crate::vulkan::device::QueueFamilyProperties;
use vstd::prelude::*;

verus! {

/// One enumerated adapter: properties queried once from the driver and
/// cached for the instance's lifetime.
pub struct VulkanPhysicalDevice {
    /// The adapter's name, already decoded to text.
    pub name: String,
    /// The raw native handle of the adapter.
    pub physical_device: u64,
    /// The queue families the adapter reports, in driver order.
    pub queue_families: Vec<QueueFamilyProperties>,
}

/// Two records describe the same adapter: equal name, handle and queue
/// families.
pub open spec fn vulkan_physical_device_eqv(a: VulkanPhysicalDevice, b: VulkanPhysicalDevice) -> bool {
    &&& a.name@ == b.name@
    &&& a.physical_device == b.physical_device
    &&& a.queue_families@ == b.queue_families@
}

impl VulkanPhysicalDevice {
    /// Builds the cached record of one adapter from the values queried at
    /// enumeration time.
    pub fn new(name: String, physical_device: u64, queue_families: Vec<QueueFamilyProperties>) -> (r:
        Self)
        ensures
            r.name@ == name@,
            r.physical_device == physical_device,
            r.queue_families@ == queue_families@,
    {
        VulkanPhysicalDevice { name, physical_device, queue_families }
    }

    /// The raw native handle of the adapter.
    pub fn physical_device(&self) -> (r: u64)
        ensures
            r == self.physical_device,
    {
        self.physical_device
    }

    /// The adapter's name.
    pub fn get_name(&self) -> (r: &str)
        ensures
            r@ == self.name@,
    {
        self.name.as_str()
    }
}

impl Clone for VulkanPhysicalDevice {
    /// Copies the record; the copy describes the same adapter.
    fn clone(&self) -> (r: Self)
        ensures
            vulkan_physical_device_eqv(r, *self),
    {
        let mut queue_families: Vec<QueueFamilyProperties> = Vec::new();
        let mut i: usize = 0;
        while i < self.queue_families.len()
            invariant
                i <= self.queue_families@.len(),
                queue_families@ =~= self.queue_families@.subrange(0, i as int),
            decreases self.queue_families@.len() - i,
        {
            queue_families.push(self.queue_families[i]);
            i = i + 1;
        }
        proof {
            assert(queue_families@ =~= self.queue_families@);
        }
        VulkanPhysicalDevice {
            name: self.name.clone(),
            physical_device: self.physical_device,
            queue_families,
        }
    }
}

} // verus!
