//! A cross-backend hardware abstraction layer for GPU bootstrap: instance
//! creation with layer/extension negotiation and diagnostic instrumentation,
//! physical-device enumeration and property caching, queue-topology
//! selection, and logical-device construction, unified behind a
//! backend-tagged dispatch facade.
//!
//! The library works over plain values describing what the native driver
//! reported (supported capability names, adapter records, queue families,
//! status codes); the native calls that gather those values and that act on
//! the negotiated results live outside the library.

mod api;
pub mod metal;
pub mod vulkan;

pub use api::device::{spec_device_desc_wf, Device, DeviceDesc};
pub use api::instance::{
    lemma_physical_devices_stable, BackendType, DriverHost, Instance, InstanceDesc, InstanceFlags,
    ENABLE_VALIDATION,
};
pub use api::physical_device::{physical_device_eqv, PhysicalDevice, PhysicalDeviceFeatures};
pub use api::Error;
