//! Instance bootstrap for the primary backend: capability negotiation over
//! the supported layer and extension names the driver reports, diagnostic
//! message routing, and construction of the instance record with its cached
//! physical-device list.

use crate::api::instance::InstanceDesc;
use crate::api::physical_device::{physical_device_eqv, PhysicalDevice};
use crate::vulkan::physical_device::{vulkan_physical_device_eqv, VulkanPhysicalDevice};
use crate::vulkan::VulkanError;
use vstd::prelude::*;
use vstd::string::StringExecFns;

verus! {

/// The name of the validation layer.
pub open spec fn spec_khronos_validation_layer_name() -> Seq<char> {
    "VK_LAYER_KHRONOS_validation"@
}

/// The name of the validation layer, as the driver spells it.
pub fn khronos_validation_layer_name() -> (r: String)
    ensures
        r@ == spec_khronos_validation_layer_name(),
{
    String::from_str("VK_LAYER_KHRONOS_validation")
}

/// The name of the diagnostic-callback extension.
pub open spec fn spec_ext_debug_utils_name() -> Seq<char> {
    "VK_EXT_debug_utils"@
}

/// The name of the diagnostic-callback extension, as the driver spells it.
pub fn ext_debug_utils_name() -> (r: String)
    ensures
        r@ == spec_ext_debug_utils_name(),
{
    String::from_str("VK_EXT_debug_utils")
}

/// The name of the presentation-surface extension.
pub open spec fn spec_khr_surface_name() -> Seq<char> {
    "VK_KHR_surface"@
}

/// The name of the presentation-surface extension, as the driver spells it.
pub fn khr_surface_name() -> (r: String)
    ensures
        r@ == spec_khr_surface_name(),
{
    String::from_str("VK_KHR_surface")
}

/// Whether some string of `s` reads `name`.
pub open spec fn contains_string(s: Seq<String>, name: Seq<char>) -> bool {
    exists|i: int| 0 <= i < s.len() && s[i]@ == name
}

/// Membership of `name` in a list of names.
fn vec_contains_string(list: &Vec<String>, name: &String) -> (r: bool)
    ensures
        r == contains_string(list@, name@),
{
    let mut i: usize = 0;
    while i < list.len()
        invariant
            i <= list@.len(),
            forall|j: int| 0 <= j < i ==> (#[trigger] list@[j])@ != name@,
        decreases list@.len() - i,
    {
        let entry = &list[i];
        if *entry == *name {
            return true;
        }
        i = i + 1;
    }
    false
}

/// Copies a list of names, preserving order and content.
fn clone_string_vec(v: &Vec<String>) -> (r: Vec<String>)
    ensures
        r@ == v@,
{
    let r = v.clone();
    proof {
        assert forall|i: int| 0 <= i < v@.len() implies r@[i] == v@[i] by {
            assert(cloned::<String>(v@[i], r@[i]));
        }
        assert(r@ =~= v@);
    }
    r
}

/// The layer negotiator: the supported names queried once from the driver,
/// and the names enabled so far. A request is honored exactly when the name
/// is supported; a refused request leaves the state unchanged.
pub struct InstanceLayers {
    /// The layer names the driver reports as supported.
    pub supported: Vec<String>,
    /// The layer names enabled so far, in request order.
    pub enabled: Vec<String>,
    /// Whether the validation layer has been enabled.
    pub khronos_validation: bool,
}

impl InstanceLayers {
    /// Every enabled layer name is a member of the supported set.
    pub open spec fn wf(self) -> bool {
        forall|i: int|
            0 <= i < self.enabled@.len() ==> contains_string(
                self.supported@,
                (#[trigger] self.enabled@[i])@,
            )
    }

    /// Starts negotiation over the supported layer names the driver
    /// reported, with nothing enabled.
    pub fn new(supported: Vec<String>) -> (r: Self)
        ensures
            r.supported@ == supported@,
            r.enabled@.len() == 0,
            !r.khronos_validation,
            r.wf(),
    {
        InstanceLayers { supported, enabled: Vec::new(), khronos_validation: false }
    }

    /// Requests one layer: appended to the enabled list exactly when the
    /// driver supports it, refused without any state change otherwise.
    pub fn push(&mut self, name: &String) -> (r: Result<(), VulkanError>)
        ensures
            final(self).supported@ == old(self).supported@,
            final(self).khronos_validation == old(self).khronos_validation,
            old(self).wf() ==> final(self).wf(),
            contains_string(old(self).supported@, name@) ==> r is Ok && final(self).enabled@
                == old(self).enabled@.push(*name),
            !contains_string(old(self).supported@, name@) ==> (r matches Err(e)
                && e matches VulkanError::CapabilityUnavailable(n) && n@ == name@) && final(self).enabled@ == old(self).enabled@,
    {
        if vec_contains_string(&self.supported, name) {
            self.enabled.push(name.clone());
            Ok(())
        } else {
            Err(VulkanError::CapabilityUnavailable(name.clone()))
        }
    }

    /// Requests the validation layer and records its availability; on
    /// refusal the enabled list and the recorded flag are unchanged.
    pub fn push_khronos_validation(&mut self) -> (r: Result<(), VulkanError>)
        ensures
            final(self).supported@ == old(self).supported@,
            old(self).wf() ==> final(self).wf(),
            contains_string(old(self).supported@, spec_khronos_validation_layer_name()) ==> r
                is Ok && final(self).khronos_validation && final(self).enabled@.len() == old(self).enabled@.len() + 1 && final(self).enabled@.subrange(
                0,
                old(self).enabled@.len() as int,
            ) == old(self).enabled@ && final(self).enabled@[old(self).enabled@.len() as int]@
                == spec_khronos_validation_layer_name(),
            !contains_string(old(self).supported@, spec_khronos_validation_layer_name()) ==> (
            r matches Err(e) && e matches VulkanError::CapabilityUnavailable(n) && n@
                == spec_khronos_validation_layer_name()) && final(self).enabled@ == old(self).enabled@ && final(self).khronos_validation == old(self).khronos_validation,
    {
        let name = khronos_validation_layer_name();
        let result = self.push(&name);
        if result.is_ok() {
            self.khronos_validation = true;
            proof {
                assert(self.enabled@.subrange(0, old(self).enabled@.len() as int) =~= old(self).enabled@);
            }
        }
        result
    }

    /// Whether the validation layer has been enabled.
    pub fn khronos_validation(&self) -> (r: bool)
        ensures
            r == self.khronos_validation,
    {
        self.khronos_validation
    }

    /// The layer names enabled so far, in request order.
    pub fn enabled(&self) -> (r: &Vec<String>)
        ensures
            r@ == self.enabled@,
    {
        &self.enabled
    }
}

/// The extension negotiator: the globally supported names, the names exposed
/// specifically by the validation layer when that layer is enabled, and the
/// names enabled so far. A request is honored exactly when either set holds
/// the name; a refused request leaves the state unchanged.
pub struct InstanceExtensions {
    /// The extension names the driver reports as globally supported.
    pub supported: Vec<String>,
    /// The extension names the validation layer exposes; empty unless that
    /// layer was already enabled when negotiation started.
    pub supported_khronos_validation: Vec<String>,
    /// The extension names enabled so far, in request order.
    pub enabled: Vec<String>,
    /// Whether the diagnostic-callback extension has been enabled.
    pub ext_debug_utils: bool,
    /// Whether the presentation-surface extension has been enabled.
    pub khr_surface: bool,
}

impl InstanceExtensions {
    /// Whether `name` is in the supported set: globally, or scoped to the
    /// enabled validation layer.
    pub open spec fn spec_supports(self, name: Seq<char>) -> bool {
        contains_string(self.supported@, name) || contains_string(
            self.supported_khronos_validation@,
            name,
        )
    }

    /// Every enabled extension name is a member of the supported set.
    pub open spec fn wf(self) -> bool {
        forall|i: int|
            0 <= i < self.enabled@.len() ==> self.spec_supports((#[trigger] self.enabled@[i])@)
    }

    /// Starts negotiation over the supported extension names the driver
    /// reported. The names scoped to the validation layer take part only
    /// when that layer is already enabled.
    pub fn new(
        supported: Vec<String>,
        khronos_validation_extensions: Vec<String>,
        layers: &InstanceLayers,
    ) -> (r: Self)
        ensures
            r.supported@ == supported@,
            layers.khronos_validation ==> r.supported_khronos_validation@
                == khronos_validation_extensions@,
            !layers.khronos_validation ==> r.supported_khronos_validation@.len() == 0,
            r.enabled@.len() == 0,
            !r.ext_debug_utils,
            !r.khr_surface,
            r.wf(),
    {
        let supported_khronos_validation = if layers.khronos_validation() {
            khronos_validation_extensions
        } else {
            Vec::new()
        };
        InstanceExtensions {
            supported,
            supported_khronos_validation,
            enabled: Vec::new(),
            ext_debug_utils: false,
            khr_surface: false,
        }
    }

    /// Requests one extension: appended to the enabled list exactly when the
    /// driver supports it globally or through the enabled validation layer,
    /// refused without any state change otherwise.
    pub fn push(&mut self, name: &String) -> (r: Result<(), VulkanError>)
        ensures
            final(self).supported@ == old(self).supported@,
            final(self).supported_khronos_validation@ == old(self).supported_khronos_validation@,
            final(self).ext_debug_utils == old(self).ext_debug_utils,
            final(self).khr_surface == old(self).khr_surface,
            old(self).wf() ==> final(self).wf(),
            old(self).spec_supports(name@) ==> r is Ok && final(self).enabled@ == old(self).enabled@.push(*name),
            !old(self).spec_supports(name@) ==> (r matches Err(e)
                && e matches VulkanError::CapabilityUnavailable(n) && n@ == name@) && final(self).enabled@ == old(self).enabled@,
    {
        let in_global = vec_contains_string(&self.supported, name);
        let in_scoped = vec_contains_string(&self.supported_khronos_validation, name);
        if in_global || in_scoped {
            self.enabled.push(name.clone());
            Ok(())
        } else {
            Err(VulkanError::CapabilityUnavailable(name.clone()))
        }
    }

    /// Requests the diagnostic-callback extension and records its
    /// availability; on refusal the enabled list and the recorded flag are
    /// unchanged.
    pub fn push_ext_debug_utils(&mut self) -> (r: Result<(), VulkanError>)
        ensures
            final(self).supported@ == old(self).supported@,
            final(self).supported_khronos_validation@ == old(self).supported_khronos_validation@,
            final(self).khr_surface == old(self).khr_surface,
            old(self).wf() ==> final(self).wf(),
            old(self).spec_supports(spec_ext_debug_utils_name()) ==> r is Ok && final(self).ext_debug_utils && final(self).enabled@.len() == old(self).enabled@.len() + 1
                && final(self).enabled@.subrange(0, old(self).enabled@.len() as int) == old(self).enabled@ && final(self).enabled@[old(self).enabled@.len() as int]@
                == spec_ext_debug_utils_name(),
            !old(self).spec_supports(spec_ext_debug_utils_name()) ==> (r matches Err(e)
                && e matches VulkanError::CapabilityUnavailable(n) && n@
                == spec_ext_debug_utils_name()) && final(self).enabled@ == old(self).enabled@
                && final(self).ext_debug_utils == old(self).ext_debug_utils,
    {
        let name = ext_debug_utils_name();
        let result = self.push(&name);
        if result.is_ok() {
            self.ext_debug_utils = true;
            proof {
                assert(self.enabled@.subrange(0, old(self).enabled@.len() as int) =~= old(self).enabled@);
            }
        }
        result
    }

    /// Requests the presentation-surface extension and records its
    /// availability; on refusal the enabled list and the recorded flag are
    /// unchanged.
    pub fn push_khr_surface(&mut self) -> (r: Result<(), VulkanError>)
        ensures
            final(self).supported@ == old(self).supported@,
            final(self).supported_khronos_validation@ == old(self).supported_khronos_validation@,
            final(self).ext_debug_utils == old(self).ext_debug_utils,
            old(self).wf() ==> final(self).wf(),
            old(self).spec_supports(spec_khr_surface_name()) ==> r is Ok && final(self).khr_surface && final(self).enabled@.len() == old(self).enabled@.len() + 1 && final(self).enabled@.subrange(0, old(self).enabled@.len() as int) == old(self).enabled@ && final(self).enabled@[old(self).enabled@.len() as int]@ == spec_khr_surface_name(),
            !old(self).spec_supports(spec_khr_surface_name()) ==> (r matches Err(e)
                && e matches VulkanError::CapabilityUnavailable(n) && n@ == spec_khr_surface_name())
                && final(self).enabled@ == old(self).enabled@ && final(self).khr_surface == old(self).khr_surface,
    {
        let name = khr_surface_name();
        let result = self.push(&name);
        if result.is_ok() {
            self.khr_surface = true;
            proof {
                assert(self.enabled@.subrange(0, old(self).enabled@.len() as int) =~= old(self).enabled@);
            }
        }
        result
    }

    /// Whether the diagnostic-callback extension has been enabled.
    pub fn ext_debug_utils(&self) -> (r: bool)
        ensures
            r == self.ext_debug_utils,
    {
        self.ext_debug_utils
    }

    /// The extension names enabled so far, in request order.
    pub fn enabled(&self) -> (r: &Vec<String>)
        ensures
            r@ == self.enabled@,
    {
        &self.enabled
    }
}

/// Validation-feature selector: best-practices checks.
pub const VALIDATION_FEATURE_BEST_PRACTICES: i32 = 2;

/// Validation-feature selector: debug-print support.
pub const VALIDATION_FEATURE_DEBUG_PRINTF: i32 = 3;

/// Validation-feature selector: synchronization validation.
pub const VALIDATION_FEATURE_SYNCHRONIZATION_VALIDATION: i32 = 4;

/// The validation checks an instrumented instance enables: best practices,
/// debug print and synchronization validation, in that order.
pub fn enabled_validation_features() -> (r: Vec<i32>)
    ensures
        r@ == seq![
            VALIDATION_FEATURE_BEST_PRACTICES,
            VALIDATION_FEATURE_DEBUG_PRINTF,
            VALIDATION_FEATURE_SYNCHRONIZATION_VALIDATION,
        ],
{
    let mut features: Vec<i32> = Vec::new();
    features.push(VALIDATION_FEATURE_BEST_PRACTICES);
    features.push(VALIDATION_FEATURE_DEBUG_PRINTF);
    features.push(VALIDATION_FEATURE_SYNCHRONIZATION_VALIDATION);
    proof {
        assert(features@ =~= seq![
            VALIDATION_FEATURE_BEST_PRACTICES,
            VALIDATION_FEATURE_DEBUG_PRINTF,
            VALIDATION_FEATURE_SYNCHRONIZATION_VALIDATION,
        ]);
    }
    features
}

/// The validation checks an instrumented instance disables explicitly:
/// none.
pub fn disabled_validation_features() -> (r: Vec<i32>)
    ensures
        r@.len() == 0,
{
    Vec::new()
}

/// Diagnostic severity bit: verbose messages.
pub const DEBUG_SEVERITY_VERBOSE: u32 = 0x1;

/// Diagnostic severity bit: informational messages.
pub const DEBUG_SEVERITY_INFO: u32 = 0x10;

/// Diagnostic severity bit: warnings.
pub const DEBUG_SEVERITY_WARNING: u32 = 0x100;

/// Diagnostic severity bit: errors.
pub const DEBUG_SEVERITY_ERROR: u32 = 0x1000;

/// Diagnostic category bit: general messages.
pub const DEBUG_TYPE_GENERAL: u32 = 0x1;

/// Diagnostic category bit: validation findings.
pub const DEBUG_TYPE_VALIDATION: u32 = 0x2;

/// Diagnostic category bit: performance findings.
pub const DEBUG_TYPE_PERFORMANCE: u32 = 0x4;

/// The levels of the structured log a diagnostic message is routed to.
#[derive(Clone, Copy, Debug, PartialEq, Eq, Structural)]
pub enum LogLevel {
    Trace,
    Info,
    Warn,
    Error,
}

/// One routed diagnostic message: the log level its severity maps to, the
/// category bitmask and text preserved verbatim, and the raw severity value
/// when it was not recognized.
pub struct DebugLogRecord {
    pub level: LogLevel,
    pub message_types: u32,
    pub message: String,
    pub unrecognized_severity: Option<u32>,
}

/// Whether a severity value is one of the four the driver defines.
pub open spec fn spec_severity_recognized(severity: u32) -> bool {
    ||| severity == DEBUG_SEVERITY_VERBOSE
    ||| severity == DEBUG_SEVERITY_INFO
    ||| severity == DEBUG_SEVERITY_WARNING
    ||| severity == DEBUG_SEVERITY_ERROR
}

/// The log level a severity value maps to; unrecognized values map to the
/// warning level.
pub open spec fn spec_severity_level(severity: u32) -> LogLevel {
    if severity == DEBUG_SEVERITY_VERBOSE {
        LogLevel::Trace
    } else if severity == DEBUG_SEVERITY_INFO {
        LogLevel::Info
    } else if severity == DEBUG_SEVERITY_WARNING {
        LogLevel::Warn
    } else if severity == DEBUG_SEVERITY_ERROR {
        LogLevel::Error
    } else {
        LogLevel::Warn
    }
}

/// Routes one native diagnostic message to the structured log: severity
/// decides the level, the category bitmask and the message text pass through
/// verbatim, and an unrecognized severity is preserved as its raw value and
/// logged as a warning.
pub fn route_debug_message(message_severity: u32, message_types: u32, message: String) -> (r:
    DebugLogRecord)
    ensures
        r.level == spec_severity_level(message_severity),
        r.message_types == message_types,
        r.message@ == message@,
        spec_severity_recognized(message_severity) ==> r.unrecognized_severity is None,
        !spec_severity_recognized(message_severity) ==> r.unrecognized_severity == Some(
            message_severity,
        ),
{
    let (level, unrecognized_severity): (LogLevel, Option<u32>) = if message_severity
        == DEBUG_SEVERITY_VERBOSE {
        (LogLevel::Trace, None)
    } else if message_severity == DEBUG_SEVERITY_INFO {
        (LogLevel::Info, None)
    } else if message_severity == DEBUG_SEVERITY_WARNING {
        (LogLevel::Warn, None)
    } else if message_severity == DEBUG_SEVERITY_ERROR {
        (LogLevel::Error, None)
    } else {
        (LogLevel::Warn, Some(message_severity))
    };
    DebugLogRecord { level, message_types, message, unrecognized_severity }
}

/// What the loaded driver reports, queried once before bootstrap: the
/// supported layer and extension names, the extension names scoped to the
/// validation layer, the status the driver returns for connection creation
/// (zero on success), and the adapters it enumerates.
pub struct VulkanDriver {
    /// The layer names the driver supports.
    pub supported_layers: Vec<String>,
    /// The extension names the driver supports globally.
    pub supported_extensions: Vec<String>,
    /// The extension names exposed specifically by the validation layer.
    pub khronos_validation_extensions: Vec<String>,
    /// The status connection creation returns; zero on success.
    pub create_result: i32,
    /// The adapters the driver enumerates, in native order.
    pub physical_devices: Vec<VulkanPhysicalDevice>,
}

/// Whether the driver supports the validation layer.
pub open spec fn spec_validation_layer_supported(driver: VulkanDriver) -> bool {
    contains_string(driver.supported_layers@, spec_khronos_validation_layer_name())
}

/// Whether the diagnostic-callback extension is available, globally or
/// through the validation layer.
pub open spec fn spec_debug_utils_available(driver: VulkanDriver) -> bool {
    contains_string(driver.supported_extensions@, spec_ext_debug_utils_name()) || contains_string(
        driver.khronos_validation_extensions@,
        spec_ext_debug_utils_name(),
    )
}

/// When instance bootstrap succeeds: the validation layer and the diagnostic
/// extension negotiate successfully whenever validation is requested, and
/// the driver accepts connection creation.
pub open spec fn spec_bootstrap_ok(validation: bool, driver: VulkanDriver) -> bool {
    &&& validation ==> spec_validation_layer_supported(driver) && spec_debug_utils_available(
        driver,
    )
    &&& driver.create_result == 0
}

/// Which error a failed bootstrap returns: the validation layer's name when
/// it is unsupported (the dependent diagnostic extension is then never
/// requested), the extension's name when only it is missing, and otherwise
/// the raw status of the failed connection creation.
pub open spec fn spec_bootstrap_err(e: VulkanError, validation: bool, driver: VulkanDriver) -> bool {
    if validation && !spec_validation_layer_supported(driver) {
        e matches VulkanError::CapabilityUnavailable(n) && n@
            == spec_khronos_validation_layer_name()
    } else if validation && !spec_debug_utils_available(driver) {
        e matches VulkanError::CapabilityUnavailable(n) && n@ == spec_ext_debug_utils_name()
    } else if driver.create_result != 0 {
        e == VulkanError::Native(driver.create_result)
    } else {
        false
    }
}

/// What a constructed instance holds: the diagnostic messenger exactly when
/// validation was requested, and one cached record per enumerated adapter,
/// in native order.
pub open spec fn spec_instance_models(
    i: VulkanInstance,
    validation: bool,
    driver: VulkanDriver,
) -> bool {
    &&& i.debug_messenger_installed == validation
    &&& i.physical_devices@.len() == driver.physical_devices@.len()
    &&& forall|k: int|
        0 <= k < driver.physical_devices@.len() ==> ((#[trigger] i.physical_devices@[k]) matches
        PhysicalDevice::Vulkan(pd) && vulkan_physical_device_eqv(
            pd,
            driver.physical_devices@[k],
        ))
}

/// Requesting validation against a driver that does not support the
/// validation layer fails with the layer's own name — never the diagnostic
/// extension's, whose request depends on the layer and is suppressed when
/// the layer is refused.
pub proof fn lemma_refused_layer_suppresses_extension_request(e: VulkanError, driver: VulkanDriver)
    requires
        !spec_validation_layer_supported(driver),
        spec_bootstrap_err(e, true, driver),
    ensures
        e matches VulkanError::CapabilityUnavailable(n) && n@
            == spec_khronos_validation_layer_name(),
{
}

/// The constructed instance: whether a diagnostic messenger was installed,
/// and the physical-device records cached at enumeration time. The state is
/// write-once: nothing mutates it after bootstrap.
pub struct VulkanInstance {
    /// Whether the diagnostic messenger was installed; false means the
    /// null/sentinel handle.
    pub debug_messenger_installed: bool,
    /// The cached physical-device records, in native enumeration order.
    pub physical_devices: Vec<PhysicalDevice>,
}

impl VulkanInstance {
    /// Bootstraps an instance over what the driver reports: negotiates the
    /// validation layer and the diagnostic extension when validation is
    /// requested (a refused layer suppresses the dependent extension
    /// request), fails on a nonzero connection-creation status, and caches
    /// one record per enumerated adapter.
    pub fn new(desc: &InstanceDesc, driver: &VulkanDriver) -> (r: Result<
        VulkanInstance,
        VulkanError,
    >)
        ensures
            (r is Ok) == spec_bootstrap_ok(desc.flags.spec_validation(), *driver),
            r matches Ok(i) ==> spec_instance_models(i, desc.flags.spec_validation(), *driver),
            r matches Err(e) ==> spec_bootstrap_err(e, desc.flags.spec_validation(), *driver),
    {
        let validation_enabled = desc.flags.validation();

        let mut layers = InstanceLayers::new(clone_string_vec(&driver.supported_layers));
        if validation_enabled {
            match layers.push_khronos_validation() {
                Ok(_) => {},
                Err(e) => {
                    return Err(e);
                },
            }
        }

        let mut extensions = InstanceExtensions::new(
            clone_string_vec(&driver.supported_extensions),
            clone_string_vec(&driver.khronos_validation_extensions),
            &layers,
        );
        if validation_enabled {
            match extensions.push_ext_debug_utils() {
                Ok(_) => {},
                Err(e) => {
                    return Err(e);
                },
            }
        }

        if driver.create_result != 0 {
            return Err(VulkanError::Native(driver.create_result));
        }

        let mut physical_devices: Vec<PhysicalDevice> = Vec::new();
        let mut k: usize = 0;
        while k < driver.physical_devices.len()
            invariant
                k <= driver.physical_devices@.len(),
                physical_devices@.len() == k,
                forall|j: int|
                    0 <= j < k ==> ((#[trigger] physical_devices@[j]) matches
                    PhysicalDevice::Vulkan(pd) && vulkan_physical_device_eqv(
                        pd,
                        driver.physical_devices@[j],
                    )),
            decreases driver.physical_devices@.len() - k,
        {
            let record = driver.physical_devices[k].clone();
            physical_devices.push(PhysicalDevice::Vulkan(record));
            k = k + 1;
        }

        Ok(
            VulkanInstance {
                debug_messenger_installed: extensions.ext_debug_utils(),
                physical_devices,
            },
        )
    }

    /// The cached physical-device list: a stable view, identical across
    /// calls for the instance's lifetime.
    pub fn get_physical_devices(&self) -> (r: &[PhysicalDevice])
        ensures
            r@ == self.physical_devices@,
    {
        self.physical_devices.as_slice()
    }
}

impl Clone for VulkanInstance {
    /// Copies the handle; the copy describes the same driver session and
    /// the same cached devices.
    fn clone(&self) -> (r: Self)
        ensures
            r.debug_messenger_installed == self.debug_messenger_installed,
            r.physical_devices@.len() == self.physical_devices@.len(),
            forall|k: int|
                0 <= k < self.physical_devices@.len() ==> physical_device_eqv(
                    #[trigger] r.physical_devices@[k],
                    self.physical_devices@[k],
                ),
    {
        let physical_devices = self.physical_devices.clone();
        proof {
            assert forall|k: int|
                0 <= k < self.physical_devices@.len() implies physical_device_eqv(
                #[trigger] physical_devices@[k],
                self.physical_devices@[k],
            ) by {
                assert(cloned::<PhysicalDevice>(self.physical_devices@[k], physical_devices@[k]));
            }
        }
        VulkanInstance {
            debug_messenger_installed: self.debug_messenger_installed,
            physical_devices,
        }
    }
}

} // verus!
