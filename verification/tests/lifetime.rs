use kml_rhi::vulkan::{QueueFamilyProperties, VulkanDriver, VulkanPhysicalDevice};
use kml_rhi::{BackendType, DeviceDesc, DriverHost, Instance, InstanceDesc, InstanceFlags};

fn vulkan_instance() -> Instance {
    let driver = VulkanDriver {
        supported_layers: Vec::new(),
        supported_extensions: Vec::new(),
        khronos_validation_extensions: Vec::new(),
        create_result: 0,
        physical_devices: vec![VulkanPhysicalDevice::new(
            String::from("GPU"),
            3,
            vec![QueueFamilyProperties { queue_flags: 0x7, queue_count: 2 }],
        )],
    };
    let host = DriverHost { vulkan: Some(driver), metal: None };
    let desc =
        InstanceDesc { flags: InstanceFlags { bits: 0 }, backend_type: BackendType::Vulkan };
    Instance::new(&desc, &host).unwrap()
}

#[test]
fn releasing_device_leaves_instance_usable() {
    let instance = vulkan_instance();
    let handle = instance.get_physical_devices()[0].clone();
    let device = instance.create_device(&DeviceDesc { physical_device: handle }).unwrap();
    drop(device);
    // The instance is unaffected by the device's release.
    assert_eq!(instance.get_physical_devices().len(), 1);
    let handle = instance.get_physical_devices()[0].clone();
    assert!(instance.create_device(&DeviceDesc { physical_device: handle }).is_ok());
}

#[test]
fn device_outliving_instance_release_does_not_crash() {
    let instance = vulkan_instance();
    let handle = instance.get_physical_devices()[0].clone();
    let device = instance.create_device(&DeviceDesc { physical_device: handle }).unwrap();
    drop(instance);
    // The device handle remains a valid value after the instance is gone.
    match &device {
        kml_rhi::Device::Vulkan(d) => assert_eq!(d.queue_create_entries.len(), 1),
        _ => panic!("expected a Vulkan device"),
    }
    drop(device);
}

#[test]
fn physical_device_handle_outlives_instance() {
    let instance = vulkan_instance();
    let handle = instance.get_physical_devices()[0].clone();
    drop(instance);
    assert_eq!(handle.get_name(), "GPU");
}

#[test]
fn cloned_handles_describe_the_same_device() {
    let instance = vulkan_instance();
    let handle = instance.get_physical_devices()[0].clone();
    let copy = handle.clone();
    assert_eq!(handle.get_name(), copy.get_name());
    let desc = DeviceDesc { physical_device: copy };
    let again = desc.clone();
    let first = instance.create_device(&desc).unwrap();
    let second = instance.create_device(&again).unwrap();
    match (first, second) {
        (kml_rhi::Device::Vulkan(a), kml_rhi::Device::Vulkan(b)) => {
            assert_eq!(a.physical_device, b.physical_device);
            assert_eq!(a.topology, b.topology);
            let c = a.clone();
            assert_eq!(c.topology, a.topology);
            assert_eq!(c.queue_create_entries, a.queue_create_entries);
        },
        _ => panic!("expected Vulkan devices"),
    }
}
