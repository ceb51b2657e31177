//! Queue-topology selection and logical-device construction for the primary
//! backend.
//!
//! The selector is a pure function over the queue-family descriptors an
//! adapter reports: it picks a direct (graphics) family, a compute family and
//! a transfer family under an exclusivity-preferring heuristic, and the
//! device constructor turns the selected topology into deduplicated
//! queue-creation entries, one per distinct family.

use crate::api::device::DeviceDesc;
use crate::api::physical_device::PhysicalDevice;
use crate::vulkan::instance::VulkanInstance;
use crate::vulkan::physical_device::VulkanPhysicalDevice;
use crate::vulkan::VulkanError;
use vstd::prelude::*;

verus! {

/// Queue capability bit: the family can record graphics work.
pub const QUEUE_GRAPHICS: u32 = 0x1;

/// Queue capability bit: the family can record compute work.
pub const QUEUE_COMPUTE: u32 = 0x2;

/// Queue capability bit: the family can record transfer work.
pub const QUEUE_TRANSFER: u32 = 0x4;

/// Allocator capability bit: allocations may be used with device addresses.
pub const ALLOCATOR_CREATE_BUFFER_DEVICE_ADDRESS: u32 = 0x20;

/// One queue family as the driver reports it: its capability bits and how
/// many queues it exposes.
#[derive(Clone, Copy, Debug, PartialEq, Eq, Structural)]
pub struct QueueFamilyProperties {
    pub queue_flags: u32,
    pub queue_count: u32,
}

/// The three family indices the selector picks; any pair may be equal when
/// the driver does not separate the roles.
#[derive(Clone, Copy, Debug, PartialEq, Eq, Structural)]
pub struct QueueTopology {
    pub direct_family: u32,
    pub compute_family: u32,
    pub transfer_family: u32,
}

/// One queue-creation entry handed to the driver: a family index and how many
/// queues to create in it.
#[derive(Clone, Copy, Debug, PartialEq, Eq, Structural)]
pub struct DeviceQueueCreateEntry {
    pub queue_family_index: u32,
    pub queue_count: u32,
}

/// A family qualifies for a role when its capability bits cover every desired
/// bit and none of the undesired ones.
pub open spec fn family_qualifies(p: QueueFamilyProperties, desired: u32, undesired: u32) -> bool {
    p.queue_flags & desired == desired && p.queue_flags & undesired == 0
}

/// The scan over the first `n` families: the greatest queue count seen in a
/// qualifying family, together with the earliest index attaining it (strict
/// improvement keeps the first maximal candidate).
pub open spec fn scan_families(
    props: Seq<QueueFamilyProperties>,
    desired: u32,
    undesired: u32,
    n: int,
) -> (u32, u32)
    decreases n,
{
    if n <= 0 {
        (0u32, 0u32)
    } else {
        let prev = scan_families(props, desired, undesired, n - 1);
        let p = props[n - 1];
        if family_qualifies(p, desired, undesired) && p.queue_count > prev.0 {
            (p.queue_count, (n - 1) as u32)
        } else {
            prev
        }
    }
}

/// The family the scan selects over the whole list, or `None` when no
/// qualifying family exposes a queue.
pub open spec fn spec_find_queue_family_index(
    props: Seq<QueueFamilyProperties>,
    desired: u32,
    undesired: u32,
) -> Option<u32> {
    let best = scan_families(props, desired, undesired, props.len() as int);
    if best.0 > 0 {
        Some(best.1)
    } else {
        None
    }
}

/// The direct family: the one covering graphics, compute and transfer with
/// the greatest queue count, earliest index on ties.
pub open spec fn spec_find_direct_queue_family_index(
    props: Seq<QueueFamilyProperties>,
) -> Option<u32> {
    spec_find_queue_family_index(props, QUEUE_GRAPHICS | QUEUE_COMPUTE | QUEUE_TRANSFER, 0)
}

/// The relaxation chain for a dedicated role: first fully exclusive (neither
/// undesired capability), then without the first undesired capability, then
/// without the second, and finally the direct family itself.
pub open spec fn spec_fallback_queue_family(
    props: Seq<QueueFamilyProperties>,
    desired: u32,
    undesired_a: u32,
    undesired_b: u32,
    direct: u32,
) -> u32 {
    match spec_find_queue_family_index(props, desired, undesired_a | undesired_b) {
        Some(i) => i,
        None => match spec_find_queue_family_index(props, desired, undesired_a) {
            Some(i) => i,
            None => match spec_find_queue_family_index(props, desired, undesired_b) {
                Some(i) => i,
                None => direct,
            },
        },
    }
}

/// The full selection: `None` exactly when no direct-capable family exposes a
/// queue; otherwise the direct family plus the relaxed compute and transfer
/// choices.
pub open spec fn spec_find_queue_family_indices(
    props: Seq<QueueFamilyProperties>,
) -> Option<QueueTopology> {
    match spec_find_direct_queue_family_index(props) {
        None => None,
        Some(direct) => Some(
            QueueTopology {
                direct_family: direct,
                compute_family: spec_fallback_queue_family(
                    props,
                    QUEUE_COMPUTE,
                    QUEUE_GRAPHICS,
                    QUEUE_TRANSFER,
                    direct,
                ),
                transfer_family: spec_fallback_queue_family(
                    props,
                    QUEUE_TRANSFER,
                    QUEUE_GRAPHICS,
                    QUEUE_COMPUTE,
                    direct,
                ),
            },
        ),
    }
}

/// What the scan guarantees: a zero best count means every qualifying family
/// among the first `n` has no queues; a positive one names a qualifying
/// family whose count is maximal, with every earlier qualifying family
/// strictly below it.
proof fn lemma_scan_families(
    props: Seq<QueueFamilyProperties>,
    desired: u32,
    undesired: u32,
    n: int,
)
    requires
        0 <= n <= props.len(),
        props.len() <= u32::MAX,
    ensures
        ({
            let best = scan_families(props, desired, undesired, n);
            &&& (best.0 == 0 ==> forall|j: int|
                0 <= j < n && family_qualifies(#[trigger] props[j], desired, undesired)
                    ==> props[j].queue_count == 0)
            &&& (best.0 > 0 ==> {
                &&& best.1 < n
                &&& family_qualifies(props[best.1 as int], desired, undesired)
                &&& props[best.1 as int].queue_count == best.0
                &&& forall|j: int|
                    0 <= j < n && family_qualifies(#[trigger] props[j], desired, undesired)
                        ==> props[j].queue_count <= best.0
                &&& forall|j: int|
                    0 <= j < best.1 && family_qualifies(#[trigger] props[j], desired, undesired)
                        ==> props[j].queue_count < best.0
            })
        }),
    decreases n,
{
    if n > 0 {
        lemma_scan_families(props, desired, undesired, n - 1);
    }
}

/// The declarative reading of the selector: when it returns an index, that
/// family qualifies, exposes a queue, has the greatest count among qualifying
/// families, and is the earliest to attain that count; when it returns
/// nothing, no qualifying family exposes a queue.
pub proof fn lemma_find_queue_family_index_characterization(
    props: Seq<QueueFamilyProperties>,
    desired: u32,
    undesired: u32,
)
    requires
        props.len() <= u32::MAX,
    ensures
        match spec_find_queue_family_index(props, desired, undesired) {
            Some(i) => {
                &&& i < props.len()
                &&& family_qualifies(props[i as int], desired, undesired)
                &&& props[i as int].queue_count > 0
                &&& forall|j: int|
                    0 <= j < props.len() && family_qualifies(
                        #[trigger] props[j],
                        desired,
                        undesired,
                    ) ==> props[j].queue_count <= props[i as int].queue_count
                &&& forall|j: int|
                    0 <= j < i && family_qualifies(#[trigger] props[j], desired, undesired)
                        ==> props[j].queue_count < props[i as int].queue_count
            },
            None => forall|j: int|
                0 <= j < props.len() && family_qualifies(#[trigger] props[j], desired, undesired)
                    ==> props[j].queue_count == 0,
        },
{
    lemma_scan_families(props, desired, undesired, props.len() as int);
}

/// The family serving a given role, scanned exactly as
/// [`spec_find_queue_family_index`] describes.
///
/// Returns `Some` iff some family covers every desired capability, none of
/// the undesired ones, and exposes at least one queue.
pub fn find_queue_family_index(
    properties: &Vec<QueueFamilyProperties>,
    desired_flags: u32,
    undesired_flags: u32,
) -> (r: Option<u32>)
    requires
        properties@.len() <= u32::MAX,
    ensures
        r == spec_find_queue_family_index(properties@, desired_flags, undesired_flags),
{
    let mut queue_count: u32 = 0;
    let mut family_index: u32 = 0;
    let mut i: usize = 0;
    while i < properties.len()
        invariant
            i <= properties@.len(),
            properties@.len() <= u32::MAX,
            (queue_count, family_index) == scan_families(
                properties@,
                desired_flags,
                undesired_flags,
                i as int,
            ),
        decreases properties@.len() - i,
    {
        let p = properties[i];
        if (p.queue_flags & desired_flags) == desired_flags
            && (p.queue_flags & undesired_flags) == 0 && p.queue_count > queue_count {
            queue_count = p.queue_count;
            family_index = i as u32;
        }
        i = i + 1;
    }
    if queue_count > 0 {
        Some(family_index)
    } else {
        None
    }
}

/// The direct family: greatest queue count among families covering graphics,
/// compute and transfer, earliest index on ties; `None` when no family
/// qualifies.
pub fn find_direct_queue_family_index(properties: &Vec<QueueFamilyProperties>) -> (r: Option<u32>)
    requires
        properties@.len() <= u32::MAX,
    ensures
        r == spec_find_direct_queue_family_index(properties@),
{
    find_queue_family_index(properties, QUEUE_GRAPHICS | QUEUE_COMPUTE | QUEUE_TRANSFER, 0)
}

/// One step of relaxation: fully exclusive first, then dropping each
/// undesired capability in turn, finally the direct family.
pub fn find_queue_family_index_with_fallback(
    properties: &Vec<QueueFamilyProperties>,
    desired_flags: u32,
    undesired_a: u32,
    undesired_b: u32,
    direct_index: u32,
) -> (r: u32)
    requires
        properties@.len() <= u32::MAX,
    ensures
        r == spec_fallback_queue_family(
            properties@,
            desired_flags,
            undesired_a,
            undesired_b,
            direct_index,
        ),
{
    match find_queue_family_index(properties, desired_flags, undesired_a | undesired_b) {
        Some(i) => i,
        None => match find_queue_family_index(properties, desired_flags, undesired_a) {
            Some(i) => i,
            None => match find_queue_family_index(properties, desired_flags, undesired_b) {
                Some(i) => i,
                None => direct_index,
            },
        },
    }
}

/// The whole selection, as [`spec_find_queue_family_indices`] describes:
/// `None` exactly when no direct-capable family exposes a queue.
pub fn find_queue_family_indices(properties: &Vec<QueueFamilyProperties>) -> (r: Option<
    QueueTopology,
>)
    requires
        properties@.len() <= u32::MAX,
    ensures
        r == spec_find_queue_family_indices(properties@),
{
    let direct_index = match find_direct_queue_family_index(properties) {
        Some(i) => i,
        None => {
            return None;
        },
    };
    let compute_index = find_queue_family_index_with_fallback(
        properties,
        QUEUE_COMPUTE,
        QUEUE_GRAPHICS,
        QUEUE_TRANSFER,
        direct_index,
    );
    let transfer_index = find_queue_family_index_with_fallback(
        properties,
        QUEUE_TRANSFER,
        QUEUE_GRAPHICS,
        QUEUE_COMPUTE,
        direct_index,
    );
    Some(
        QueueTopology {
            direct_family: direct_index,
            compute_family: compute_index,
            transfer_family: transfer_index,
        },
    )
}

/// Every index a selected topology names is a valid index into the family
/// list it came from, and the direct family covers all three capabilities
/// with at least one queue.
pub proof fn lemma_queue_topology_valid(props: Seq<QueueFamilyProperties>)
    requires
        props.len() <= u32::MAX,
    ensures
        match spec_find_queue_family_indices(props) {
            Some(t) => {
                &&& t.direct_family < props.len()
                &&& t.compute_family < props.len()
                &&& t.transfer_family < props.len()
                &&& family_qualifies(
                    props[t.direct_family as int],
                    QUEUE_GRAPHICS | QUEUE_COMPUTE | QUEUE_TRANSFER,
                    0,
                )
                &&& props[t.direct_family as int].queue_count > 0
            },
            None => forall|j: int|
                0 <= j < props.len() && family_qualifies(
                    #[trigger] props[j],
                    QUEUE_GRAPHICS | QUEUE_COMPUTE | QUEUE_TRANSFER,
                    0,
                ) ==> props[j].queue_count == 0,
        },
{
    lemma_find_queue_family_index_characterization(
        props,
        QUEUE_GRAPHICS | QUEUE_COMPUTE | QUEUE_TRANSFER,
        0,
    );
    lemma_find_queue_family_index_characterization(props, QUEUE_COMPUTE, QUEUE_GRAPHICS | QUEUE_TRANSFER);
    lemma_find_queue_family_index_characterization(props, QUEUE_COMPUTE, QUEUE_GRAPHICS);
    lemma_find_queue_family_index_characterization(props, QUEUE_COMPUTE, QUEUE_TRANSFER);
    lemma_find_queue_family_index_characterization(props, QUEUE_TRANSFER, QUEUE_GRAPHICS | QUEUE_COMPUTE);
    lemma_find_queue_family_index_characterization(props, QUEUE_TRANSFER, QUEUE_GRAPHICS);
    lemma_find_queue_family_index_characterization(props, QUEUE_TRANSFER, QUEUE_COMPUTE);
}

/// The queue-creation entries a topology induces: the direct family first,
/// then the compute and transfer families when they differ from every family
/// already entered — one entry per distinct family, each requesting one
/// queue.
pub open spec fn spec_queue_create_entries(t: QueueTopology) -> Seq<DeviceQueueCreateEntry> {
    let direct_only = seq![
        DeviceQueueCreateEntry { queue_family_index: t.direct_family, queue_count: 1 },
    ];
    let with_compute = if t.compute_family != t.direct_family {
        direct_only.push(
            DeviceQueueCreateEntry { queue_family_index: t.compute_family, queue_count: 1 },
        )
    } else {
        direct_only
    };
    if t.transfer_family != t.direct_family && t.transfer_family != t.compute_family {
        with_compute.push(
            DeviceQueueCreateEntry { queue_family_index: t.transfer_family, queue_count: 1 },
        )
    } else {
        with_compute
    }
}

/// Builds the deduplicated queue-creation entries for a selected topology.
pub fn build_queue_create_entries(topology: &QueueTopology) -> (r: Vec<DeviceQueueCreateEntry>)
    ensures
        r@ == spec_queue_create_entries(*topology),
{
    let mut entries: Vec<DeviceQueueCreateEntry> = Vec::new();
    entries.push(
        DeviceQueueCreateEntry { queue_family_index: topology.direct_family, queue_count: 1 },
    );
    if topology.compute_family != topology.direct_family {
        entries.push(
            DeviceQueueCreateEntry { queue_family_index: topology.compute_family, queue_count: 1 },
        );
    }
    if topology.transfer_family != topology.direct_family && topology.transfer_family
        != topology.compute_family {
        entries.push(
            DeviceQueueCreateEntry {
                queue_family_index: topology.transfer_family,
                queue_count: 1,
            },
        );
    }
    proof {
        assert(entries@ =~= spec_queue_create_entries(*topology));
    }
    entries
}

/// The entries of a topology name pairwise distinct families, cover exactly
/// the three selected roles, and each request a single queue; their number is
/// the number of distinct families among the three.
pub proof fn lemma_queue_create_entries_distinct(t: QueueTopology)
    ensures
        ({
            let es = spec_queue_create_entries(t);
            &&& 1 <= es.len() <= 3
            &&& es[0].queue_family_index == t.direct_family
            &&& forall|a: int, b: int|
                0 <= a < b < es.len() ==> (#[trigger] es[a]).queue_family_index
                    != (#[trigger] es[b]).queue_family_index
            &&& forall|a: int| 0 <= a < es.len() ==> (#[trigger] es[a]).queue_count == 1
            &&& exists|a: int|
                0 <= a < es.len() && (#[trigger] es[a]).queue_family_index == t.compute_family
            &&& exists|a: int|
                0 <= a < es.len() && (#[trigger] es[a]).queue_family_index == t.transfer_family
            &&& forall|a: int|
                0 <= a < es.len() ==> (#[trigger] es[a]).queue_family_index == t.direct_family
                    || es[a].queue_family_index == t.compute_family || es[a].queue_family_index
                    == t.transfer_family
        }),
{
    let es = spec_queue_create_entries(t);
    if t.compute_family != t.direct_family {
        assert(es[1].queue_family_index == t.compute_family);
    } else {
        assert(es[0].queue_family_index == t.compute_family);
    }
    if t.transfer_family != t.direct_family && t.transfer_family != t.compute_family {
        assert(es[es.len() - 1].queue_family_index == t.transfer_family);
    } else if t.transfer_family == t.direct_family {
        assert(es[0].queue_family_index == t.transfer_family);
    } else if t.compute_family != t.direct_family {
        assert(es[1].queue_family_index == t.transfer_family);
    } else {
        assert(es[0].queue_family_index == t.transfer_family);
    }
}

/// What a constructed device holds of the physical device it was opened on:
/// its handle, the topology selected from its queue families, the
/// deduplicated queue-creation entries of that topology, and the allocator
/// capability flags.
pub open spec fn spec_vulkan_device_models(d: VulkanDevice, pd: VulkanPhysicalDevice) -> bool {
    &&& d.physical_device == pd.physical_device
    &&& Some(d.topology) == spec_find_queue_family_indices(pd.queue_families@)
    &&& d.queue_create_entries@ == spec_queue_create_entries(d.topology)
    &&& d.allocator_flags == ALLOCATOR_CREATE_BUFFER_DEVICE_ADDRESS
}

/// A constructed device is internally consistent with the adapter it was
/// built on: every selected family index is a valid index into the
/// adapter's family list, the direct family covers all three capabilities
/// and exposes a queue, and the queue-creation entries name pairwise
/// distinct families — one entry per distinct selected family, each
/// requesting one queue.
pub proof fn lemma_device_plan_valid(d: VulkanDevice, pd: VulkanPhysicalDevice)
    requires
        pd.queue_families@.len() <= u32::MAX,
        spec_vulkan_device_models(d, pd),
    ensures
        d.topology.direct_family < pd.queue_families@.len(),
        d.topology.compute_family < pd.queue_families@.len(),
        d.topology.transfer_family < pd.queue_families@.len(),
        family_qualifies(
            pd.queue_families@[d.topology.direct_family as int],
            QUEUE_GRAPHICS | QUEUE_COMPUTE | QUEUE_TRANSFER,
            0,
        ),
        pd.queue_families@[d.topology.direct_family as int].queue_count > 0,
        1 <= d.queue_create_entries@.len() <= 3,
        forall|a: int, b: int|
            0 <= a < b < d.queue_create_entries@.len()
                ==> (#[trigger] d.queue_create_entries@[a]).queue_family_index
                != (#[trigger] d.queue_create_entries@[b]).queue_family_index,
        forall|a: int|
            0 <= a < d.queue_create_entries@.len()
                ==> (#[trigger] d.queue_create_entries@[a]).queue_count == 1,
{
    lemma_queue_topology_valid(pd.queue_families@);
    lemma_queue_create_entries_distinct(d.topology);
}

/// Two device records describe the same logical device.
pub open spec fn vulkan_device_eqv(a: VulkanDevice, b: VulkanDevice) -> bool {
    &&& a.physical_device == b.physical_device
    &&& a.topology == b.topology
    &&& a.queue_create_entries@ == b.queue_create_entries@
    &&& a.allocator_flags == b.allocator_flags
}

/// The constructed logical device: the handle of the physical device it was
/// opened on, the selected queue topology, the queue-creation entries
/// emitted for it, and the flags of the attached memory allocator. The
/// state is write-once: nothing mutates it after construction.
pub struct VulkanDevice {
    /// The raw handle of the physical device the logical device was opened
    /// on.
    pub physical_device: u64,
    /// The selected queue topology.
    pub topology: QueueTopology,
    /// The deduplicated queue-creation entries, direct family first.
    pub queue_create_entries: Vec<DeviceQueueCreateEntry>,
    /// The capability flags the attached memory allocator was created with.
    pub allocator_flags: u32,
}

impl VulkanDevice {
    /// Builds the logical device on the chosen physical device: selects the
    /// queue topology from the cached queue families, emits one
    /// queue-creation entry per distinct family, and attaches an allocator
    /// with device-address-capable allocations enabled. A physical device of
    /// another backend is refused with a dedicated error; an adapter without
    /// a direct-capable family is a fatal configuration error.
    pub fn new(_instance: &VulkanInstance, desc: &DeviceDesc) -> (r: Result<
        VulkanDevice,
        VulkanError,
    >)
        requires
            crate::api::device::spec_device_desc_wf(*desc),
        ensures
            (r is Ok) == (desc.physical_device matches PhysicalDevice::Vulkan(pd)
                && spec_find_queue_family_indices(pd.queue_families@) is Some),
            r matches Ok(d) ==> (desc.physical_device matches PhysicalDevice::Vulkan(pd)
                && spec_vulkan_device_models(d, pd)),
            desc.physical_device is Metal ==> r == Err::<VulkanDevice, VulkanError>(
                VulkanError::InvalidPhysicalDevice,
            ),
            (desc.physical_device matches PhysicalDevice::Vulkan(pd)
                && spec_find_queue_family_indices(pd.queue_families@) is None) ==> r == Err::<
                VulkanDevice,
                VulkanError,
            >(VulkanError::NoSuitableQueueFamily),
    {
        let physical_device = match &desc.physical_device {
            PhysicalDevice::Vulkan(physical_device) => physical_device,
            PhysicalDevice::Metal(_) => {
                return Err(VulkanError::InvalidPhysicalDevice);
            },
        };

        let topology = match find_queue_family_indices(&physical_device.queue_families) {
            Some(topology) => topology,
            None => {
                return Err(VulkanError::NoSuitableQueueFamily);
            },
        };

        let queue_create_entries = build_queue_create_entries(&topology);

        Ok(
            VulkanDevice {
                physical_device: physical_device.physical_device,
                topology,
                queue_create_entries,
                allocator_flags: ALLOCATOR_CREATE_BUFFER_DEVICE_ADDRESS,
            },
        )
    }

    /// The selected queue topology.
    pub fn topology(&self) -> (r: QueueTopology)
        ensures
            r == self.topology,
    {
        self.topology
    }

    /// The deduplicated queue-creation entries, direct family first.
    pub fn queue_create_entries(&self) -> (r: &Vec<DeviceQueueCreateEntry>)
        ensures
            r@ == self.queue_create_entries@,
    {
        &self.queue_create_entries
    }
}

impl Clone for VulkanDevice {
    /// Copies the record; the copy describes the same logical device.
    fn clone(&self) -> (r: Self)
        ensures
            vulkan_device_eqv(r, *self),
    {
        let mut queue_create_entries: Vec<DeviceQueueCreateEntry> = Vec::new();
        let mut i: usize = 0;
        while i < self.queue_create_entries.len()
            invariant
                i <= self.queue_create_entries@.len(),
                queue_create_entries@ =~= self.queue_create_entries@.subrange(0, i as int),
            decreases self.queue_create_entries@.len() - i,
        {
            queue_create_entries.push(self.queue_create_entries[i]);
            i = i + 1;
        }
        proof {
            assert(queue_create_entries@ =~= self.queue_create_entries@);
        }
        VulkanDevice {
            physical_device: self.physical_device,
            topology: self.topology,
            queue_create_entries,
            allocator_flags: self.allocator_flags,
        }
    }
}

} // verus!
