//! Secondary backend: a reduced-scope bootstrap over a Metal-style driver.
//! The native device-copy API exposes no layer/extension negotiation and no
//! diagnostic callback at this layer, so instance bootstrap only enumerates
//! the reported devices, and device construction retains the chosen physical
//! device's native handle as the logical device.

mod device;
mod instance;
mod physical_device;

pub use device::MetalDevice;
pub use instance::{spec_metal_instance_models, MetalDriver, MetalInstance};
pub use physical_device::{metal_physical_device_eqv, MetalPhysicalDevice};

use vstd::prelude::*;
use vstd::string::StringExecFns;

verus! {

/// Failures of the secondary backend.
#[derive(Debug, PartialEq, Eq)]
pub enum MetalError {
    /// The native device-copy call returned nothing to retain.
    EnumerationFailed,
    /// A physical-device handle of another backend was passed in.
    InvalidPhysicalDevice,
}

impl MetalError {
    /// The description of the error.
    pub open spec fn spec_message(self) -> Seq<char> {
        match self {
            MetalError::EnumerationFailed => "failed to get metal devices"@,
            MetalError::InvalidPhysicalDevice => "invalid physical device"@,
        }
    }

    /// A human-readable description of the failure.
    pub fn message(&self) -> (r: String)
        ensures
            r@ == self.spec_message(),
    {
        match self {
            MetalError::EnumerationFailed => String::from_str("failed to get metal devices"),
            MetalError::InvalidPhysicalDevice => String::from_str("invalid physical device"),
        }
    }
}

} // verus!
