//! The backend-agnostic surface: a closed, backend-tagged union of instances,
//! physical devices and logical devices, with one error type that keeps the
//! failure kinds of both backends apart.

pub mod device;
pub mod instance;
pub mod physical_device;

use crate::metal::MetalError;
use crate::vulkan::VulkanError;
use instance::BackendType;
use vstd::prelude::*;
use vstd::string::StringExecFns;

verus! {

/// Any failure the facade can surface: a backend that is not available, a
/// query this build does not implement, or a failure of one of the backends.
#[derive(Debug, PartialEq, Eq)]
pub enum Error {
    /// The requested backend is not available on this host.
    Configuration(BackendType),
    /// The queried surface area is not supported by this build.
    Unsupported,
    /// A failure of the Metal backend.
    MetalBackend(MetalError),
    /// A failure of the Vulkan backend.
    VulkanBackend(VulkanError),
}

impl Error {
    /// The description of the error, with the backend named first for backend
    /// failures.
    pub open spec fn spec_message(self) -> Seq<char> {
        match self {
            Error::Configuration(_) => "requested backend is not available"@,
            Error::Unsupported => "not supported by this build"@,
            Error::MetalBackend(e) => "Metal backend: "@ + e.spec_message(),
            Error::VulkanBackend(e) => "Vulkan backend: "@ + e.spec_message(),
        }
    }

    /// A human-readable description of the failure.
    pub fn message(&self) -> (r: String)
        ensures
            r@ == self.spec_message(),
    {
        match self {
            Error::Configuration(_) => String::from_str("requested backend is not available"),
            Error::Unsupported => String::from_str("not supported by this build"),
            Error::MetalBackend(e) => {
                let m = e.message();
                String::from_str("Metal backend: ").concat(m.as_str())
            },
            Error::VulkanBackend(e) => {
                let m = e.message();
                String::from_str("Vulkan backend: ").concat(m.as_str())
            },
        }
    }
}

} // verus!
