use kml_rhi::metal::{MetalDriver, MetalError, MetalPhysicalDevice};
use kml_rhi::vulkan::{
    QueueFamilyProperties, VulkanDriver, VulkanError, VulkanPhysicalDevice,
    ALLOCATOR_CREATE_BUFFER_DEVICE_ADDRESS, QUEUE_COMPUTE, QUEUE_GRAPHICS, QUEUE_TRANSFER,
};
use kml_rhi::{BackendType, Device, DeviceDesc, DriverHost, Error, Instance, InstanceDesc, InstanceFlags};

const DIRECT: u32 = QUEUE_GRAPHICS | QUEUE_COMPUTE | QUEUE_TRANSFER;

fn qf(queue_flags: u32, queue_count: u32) -> QueueFamilyProperties {
    QueueFamilyProperties { queue_flags, queue_count }
}

fn vulkan_instance(families: Vec<QueueFamilyProperties>) -> Instance {
    let driver = VulkanDriver {
        supported_layers: Vec::new(),
        supported_extensions: Vec::new(),
        khronos_validation_extensions: Vec::new(),
        create_result: 0,
        physical_devices: vec![VulkanPhysicalDevice::new(String::from("GPU"), 5, families)],
    };
    let host = DriverHost { vulkan: Some(driver), metal: None };
    let desc =
        InstanceDesc { flags: InstanceFlags { bits: 0 }, backend_type: BackendType::Vulkan };
    Instance::new(&desc, &host).unwrap()
}

fn metal_instance() -> Instance {
    let driver = MetalDriver {
        devices: Some(vec![MetalPhysicalDevice::new(String::from("Apple GPU"), 21).unwrap()]),
    };
    let host = DriverHost { vulkan: None, metal: Some(driver) };
    let desc = InstanceDesc { flags: InstanceFlags { bits: 0 }, backend_type: BackendType::Metal };
    Instance::new(&desc, &host).unwrap()
}

#[test]
fn wrong_backend_handle_refused_by_vulkan() {
    let vulkan = vulkan_instance(vec![qf(DIRECT, 1)]);
    let metal = metal_instance();
    let metal_handle = metal.get_physical_devices()[0].clone();
    let result = vulkan.create_device(&DeviceDesc { physical_device: metal_handle });
    assert!(matches!(
        result,
        Err(Error::VulkanBackend(VulkanError::InvalidPhysicalDevice))
    ));
}

#[test]
fn wrong_backend_handle_refused_by_metal() {
    let vulkan = vulkan_instance(vec![qf(DIRECT, 1)]);
    let metal = metal_instance();
    let vulkan_handle = vulkan.get_physical_devices()[0].clone();
    let result = metal.create_device(&DeviceDesc { physical_device: vulkan_handle });
    assert!(matches!(
        result,
        Err(Error::MetalBackend(MetalError::InvalidPhysicalDevice))
    ));
}

#[test]
fn device_construction_dedicated_families() {
    // Three distinct families selected: three queue-creation entries.
    let instance =
        vulkan_instance(vec![qf(DIRECT, 2), qf(QUEUE_COMPUTE, 4), qf(QUEUE_TRANSFER, 1)]);
    let handle = instance.get_physical_devices()[0].clone();
    let device = instance.create_device(&DeviceDesc { physical_device: handle }).unwrap();
    match device {
        Device::Vulkan(d) => {
            assert_eq!(d.topology.direct_family, 0);
            assert_eq!(d.topology.compute_family, 1);
            assert_eq!(d.topology.transfer_family, 2);
            assert_eq!(d.queue_create_entries.len(), 3);
            assert_eq!(d.physical_device, 5);
            assert_eq!(d.allocator_flags, ALLOCATOR_CREATE_BUFFER_DEVICE_ADDRESS);
        },
        _ => panic!("expected a Vulkan device"),
    }
}

#[test]
fn device_construction_single_family() {
    // One universal family: a single deduplicated entry.
    let instance = vulkan_instance(vec![qf(DIRECT, 1)]);
    let handle = instance.get_physical_devices()[0].clone();
    let device = instance.create_device(&DeviceDesc { physical_device: handle }).unwrap();
    match device {
        Device::Vulkan(d) => {
            assert_eq!(d.topology.direct_family, 0);
            assert_eq!(d.topology.compute_family, 0);
            assert_eq!(d.topology.transfer_family, 0);
            assert_eq!(d.queue_create_entries.len(), 1);
            assert_eq!(d.queue_create_entries[0].queue_family_index, 0);
            assert_eq!(d.queue_create_entries[0].queue_count, 1);
        },
        _ => panic!("expected a Vulkan device"),
    }
}

#[test]
fn device_construction_shared_compute_transfer() {
    // Compute and transfer share one relaxed family: two entries.
    let instance = vulkan_instance(vec![qf(DIRECT, 1), qf(QUEUE_COMPUTE | QUEUE_TRANSFER, 2)]);
    let handle = instance.get_physical_devices()[0].clone();
    let device = instance.create_device(&DeviceDesc { physical_device: handle }).unwrap();
    match device {
        Device::Vulkan(d) => {
            assert_eq!(d.topology.compute_family, 1);
            assert_eq!(d.topology.transfer_family, 1);
            assert_eq!(d.queue_create_entries.len(), 2);
        },
        _ => panic!("expected a Vulkan device"),
    }
}

#[test]
fn no_direct_family_is_fatal_for_the_adapter() {
    let instance = vulkan_instance(vec![qf(QUEUE_COMPUTE, 4)]);
    let handle = instance.get_physical_devices()[0].clone();
    let result = instance.create_device(&DeviceDesc { physical_device: handle });
    assert!(matches!(
        result,
        Err(Error::VulkanBackend(VulkanError::NoSuitableQueueFamily))
    ));
}

#[test]
fn metal_device_retains_native_handle() {
    let instance = metal_instance();
    let handle = instance.get_physical_devices()[0].clone();
    let device = instance.create_device(&DeviceDesc { physical_device: handle }).unwrap();
    match device {
        Device::Metal(d) => assert_eq!(d.device, 21),
        _ => panic!("expected a Metal device"),
    }
}

#[test]
fn feature_query_fails_instead_of_aborting() {
    let instance = vulkan_instance(vec![qf(DIRECT, 1)]);
    let result = instance.get_physical_devices()[0].get_supported_features();
    assert!(matches!(result, Err(Error::Unsupported)));
}

#[test]
fn physical_device_accessors() {
    let instance = vulkan_instance(vec![qf(DIRECT, 1)]);
    let handle = instance.get_physical_devices()[0].clone();
    assert_eq!(handle.get_name(), "GPU");
    match handle {
        kml_rhi::PhysicalDevice::Vulkan(pd) => {
            assert_eq!(pd.physical_device(), 5);
            assert_eq!(pd.get_name(), "GPU");
        },
        _ => panic!("expected a Vulkan physical device"),
    }
}

#[test]
fn error_messages_name_the_failure() {
    let e = Error::VulkanBackend(VulkanError::CapabilityUnavailable(String::from("VK_X_y")));
    assert_eq!(e.message(), "Vulkan backend: unsupported capability: VK_X_y");
    let e = Error::MetalBackend(MetalError::EnumerationFailed);
    assert_eq!(e.message(), "Metal backend: failed to get metal devices");
    let e = Error::Configuration(BackendType::Vulkan);
    assert_eq!(e.message(), "requested backend is not available");
    let e = Error::Unsupported;
    assert_eq!(e.message(), "not supported by this build");
    let e = Error::VulkanBackend(VulkanError::NoSuitableQueueFamily);
    assert_eq!(e.message(), "Vulkan backend: failed to find queue family indices");
    let e = Error::VulkanBackend(VulkanError::Native(-1));
    assert_eq!(e.message(), "Vulkan backend: the driver returned an error status");
    let e = Error::VulkanBackend(VulkanError::InvalidUtf8);
    assert_eq!(e.message(), "Vulkan backend: invalid text in a native string");
    let e = Error::MetalBackend(MetalError::InvalidPhysicalDevice);
    assert_eq!(e.message(), "Metal backend: invalid physical device");
}
