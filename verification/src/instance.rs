use vstd::prelude::*;
use vstd::string::StringExecFns;

use crate::debug_messenger::get_debug_messenger_create_info;
use crate::debug_messenger::spec_default_messenger_create_info;
use crate::debug_messenger::DebugMessenger;
use crate::debug_messenger::DebugUtilsMessengerCreateInfo;
use crate::error::Error;
use crate::error::ResourceKind;
use crate::names::decode_fixed_name;
use crate::names::decoded_name;
use crate::physical_device::PhysicalDevice;
use crate::surface::Surface;
use crate::vulkan::debug_utils_extension_name;
use crate::vulkan::spec_debug_utils_extension_name;
use crate::vulkan::spec_make_api_version;
use crate::vulkan::spec_make_version;
use crate::vulkan::spec_validation_layer_name;
use crate::vulkan::validation_layer_name;
use crate::vulkan::VK_MAKE_API_VERSION;
use crate::vulkan::VK_MAKE_VERSION;
use crate::vulkan::VK_SUCCESS;

verus! {

/// Root connection to the native driver: owns one native connection handle
/// exclusively, is created once per application run, and is destroyed last.
/// Whether validation was requested is carried by how the instance was
/// constructed.
#[derive(Debug)]
pub struct Instance {
    raw_handle: u64,
    validation_enabled: bool,
}

/// One raw entry of the driver's instance-extension enumeration: a
/// fixed-size, null-padded byte array holding the extension's name.
#[derive(Debug)]
pub struct ExtensionProperties {
    pub extension_name: Vec<u8>,
}

/// Application-metadata descriptor embedded in the instance-creation
/// descriptor: the application's name, its packed version, and the packed
/// target interface version. No engine name is reported.
#[derive(Debug)]
pub struct ApplicationInfo {
    pub application_name: String,
    pub application_version: u32,
    pub engine_version: u32,
    pub api_version: u32,
}

/// Instance-creation descriptor, fully determined before the native call:
/// the application metadata, the layer and extension names to enable, and —
/// only when validation is requested — a chained messenger descriptor so
/// that messages emitted during instance creation itself are captured.
#[derive(Debug)]
pub struct InstanceCreateInfo {
    pub application_info: ApplicationInfo,
    pub enabled_layer_names: Vec<String>,
    pub enabled_extension_names: Vec<String>,
    pub debug_messenger_chain: Option<DebugUtilsMessengerCreateInfo>,
}

impl InstanceCreateInfo {
    /// Whether this descriptor requests validation: exactly when a
    /// messenger descriptor is chained into it.
    pub open spec fn requests_validation(&self) -> bool {
        self.debug_messenger_chain.is_some()
    }
}

impl Instance {
    /// The opaque native connection handle.
    pub closed spec fn handle(&self) -> u64 {
        self.raw_handle
    }

    /// Whether this instance was constructed with validation requested.
    pub closed spec fn spec_validation_enabled(&self) -> bool {
        self.validation_enabled
    }

    /// The opaque native connection handle.
    pub fn raw_handle(&self) -> (r: u64)
        ensures
            r == self.handle(),
    {
        self.raw_handle
    }

    /// Whether this instance was constructed with validation requested.
    pub fn validation_enabled(&self) -> (r: bool)
        ensures
            r == self.spec_validation_enabled(),
    {
        self.validation_enabled
    }

    /// Decodes the driver's instance-extension enumeration: one string per
    /// reported entry, in the driver's reported order. An entry whose name
    /// bytes are not a valid encoding yields the fixed sentinel string at
    /// its position; enumeration itself never fails, and a zero count is
    /// simply an empty result.
    pub fn enumerate_extension_names(raw_extensions: &Vec<ExtensionProperties>) -> (r: Vec<
        String,
    >)
        ensures
            r@.len() == raw_extensions@.len(),
            forall|i: int|
                0 <= i < raw_extensions@.len() ==> r@[i]@ == decoded_name(
                    raw_extensions@[i].extension_name@,
                ),
    {
        let mut names: Vec<String> = Vec::new();
        let mut i: usize = 0;
        while i < raw_extensions.len()
            invariant
                0 <= i <= raw_extensions@.len(),
                names@.len() == i,
                forall|j: int|
                    0 <= j < i ==> names@[j]@ == decoded_name(raw_extensions@[j].extension_name@),
            decreases raw_extensions@.len() - i,
        {
            names.push(decode_fixed_name(&raw_extensions[i].extension_name));
            i = i + 1;
        }
        names
    }

    /// Builds the instance-creation descriptor. The extension list is the
    /// windowing system's required extensions, in their reported order;
    /// when validation is requested the debug-utilities extension name is
    /// appended to it, the single hard-coded validation layer is requested,
    /// and a messenger descriptor is chained in so that messages emitted
    /// during instance creation itself are captured. Without validation no
    /// layer is requested and nothing is chained.
    pub fn build_create_info(
        application_name: &str,
        window_extensions: Vec<String>,
        app_version_major: u32,
        app_version_minor: u32,
        app_version_patch: u32,
        enable_validation: bool,
    ) -> (r: InstanceCreateInfo)
        ensures
            r.application_info.application_name@ == application_name@,
            r.application_info.application_version == spec_make_version(
                app_version_major,
                app_version_minor,
                app_version_patch,
            ),
            r.application_info.engine_version == 0,
            r.application_info.api_version == spec_make_api_version(0, 1, 2, 0),
            r.requests_validation() == enable_validation,
            !enable_validation ==> {
                &&& r.enabled_extension_names@ == window_extensions@
                &&& r.enabled_layer_names@.len() == 0
                &&& r.debug_messenger_chain.is_none()
            },
            enable_validation ==> {
                &&& r.enabled_extension_names@.len() == window_extensions@.len() + 1
                &&& (forall|i: int|
                    0 <= i < window_extensions@.len() ==> r.enabled_extension_names@[i]
                        == window_extensions@[i])
                &&& r.enabled_extension_names@.last()@ == spec_debug_utils_extension_name()
                &&& r.enabled_layer_names@.len() == 1
                &&& r.enabled_layer_names@[0]@ == spec_validation_layer_name()
                &&& r.debug_messenger_chain == Some(spec_default_messenger_create_info())
            },
    {
        let application_info = ApplicationInfo {
            application_name: String::from_str(application_name),
            application_version: VK_MAKE_VERSION(
                app_version_major,
                app_version_minor,
                app_version_patch,
            ),
            engine_version: 0,
            api_version: VK_MAKE_API_VERSION(0, 1, 2, 0),
        };
        let mut enabled_extension_names = window_extensions;
        let mut enabled_layer_names: Vec<String> = Vec::new();
        let debug_messenger_chain = if enable_validation {
            enabled_extension_names.push(String::from_str(debug_utils_extension_name()));
            enabled_layer_names.push(String::from_str(validation_layer_name()));
            Some(get_debug_messenger_create_info())
        } else {
            None
        };
        InstanceCreateInfo {
            application_info,
            enabled_layer_names,
            enabled_extension_names,
            debug_messenger_chain,
        }
    }

    /// Finishes instance creation from the driver's reply to the given
    /// descriptor. Success yields the root instance owning the new
    /// connection handle and carrying the descriptor's validation request;
    /// a non-success status maps to `CreationFailed` carrying the status
    /// verbatim.
    pub fn new(create_info: &InstanceCreateInfo, native_status: i32, raw_handle: u64) -> (r:
        Result<Instance, Error>)
        ensures
            match r {
                Ok(instance) => {
                    &&& native_status == VK_SUCCESS
                    &&& instance.handle() == raw_handle
                    &&& instance.spec_validation_enabled() == create_info.requests_validation()
                },
                Err(e) => {
                    &&& native_status != VK_SUCCESS
                    &&& e == (Error::CreationFailed {
                        resource_kind: ResourceKind::Instance,
                        native_status: native_status,
                    })
                },
            },
    {
        if native_status == VK_SUCCESS {
            Ok(
                Instance {
                    raw_handle,
                    validation_enabled: create_info.debug_messenger_chain.is_some(),
                },
            )
        } else {
            Err(
                Error::CreationFailed {
                    resource_kind: ResourceKind::Instance,
                    native_status: native_status,
                },
            )
        }
    }

    /// Finishes diagnostic-messenger registration for this instance; see
    /// [`DebugMessenger::new`].
    pub fn create_debug_messenger<'a>(&'a self, create_result: Option<u64>) -> (r: Result<
        DebugMessenger<'a>,
        Error,
    >)
        ensures
            match r {
                Ok(m) => {
                    &&& create_result.is_some()
                    &&& m.handle() == create_result.unwrap()
                    &&& m.instance_handle() == self.handle()
                },
                Err(e) => {
                    &&& create_result.is_none()
                    &&& e == Error::ExtensionLookupFailed
                },
            },
    {
        DebugMessenger::new(self, create_result)
    }

    /// Takes ownership of a surface handle the windowing collaborator
    /// produced for this instance. Surface creation is delegated entirely
    /// to the windowing system's platform-specific routine; this crate only
    /// owns the resulting handle and its teardown.
    pub fn create_window_surface<'a>(&'a self, raw_surface_handle: u64) -> (r: Surface<'a>)
        ensures
            r.instance_handle() == self.handle(),
            r.handle() == raw_surface_handle,
    {
        Surface::attach(self, raw_surface_handle)
    }

    /// Wraps the driver's candidate-device enumeration: one non-owning view
    /// per reported handle, in the driver's reported order. The views
    /// become dangling the instant this instance is destroyed.
    pub fn enumerate_physical_devices(&self, raw_handles: &Vec<u64>) -> (r: Vec<PhysicalDevice>)
        ensures
            r@.len() == raw_handles@.len(),
            forall|i: int| 0 <= i < raw_handles@.len() ==> r@[i].handle() == raw_handles@[i],
    {
        let mut devices: Vec<PhysicalDevice> = Vec::new();
        let mut i: usize = 0;
        while i < raw_handles.len()
            invariant
                0 <= i <= raw_handles@.len(),
                devices@.len() == i,
                forall|j: int| 0 <= j < i ==> devices@[j].handle() == raw_handles@[j],
            decreases raw_handles@.len() - i,
        {
            devices.push(PhysicalDevice::from_raw_handle(raw_handles[i]));
            i = i + 1;
        }
        devices
    }

    /// Gives up ownership for teardown and returns the native connection
    /// handle the caller must now destroy. Destruction is unconditional;
    /// every dependent — device, surface, messenger — must already have
    /// been destroyed, and any borrow a dependent still holds on this
    /// instance enforces that at compile time. Destruction order is the
    /// exact reverse of creation order.
    pub fn destroy(self) -> (r: u64)
        ensures
            r == self.handle(),
    {
        self.raw_handle
    }
}

} // verus!
