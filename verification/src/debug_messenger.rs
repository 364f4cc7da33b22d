use vstd::prelude::*;

use crate::error::Error;
use crate::instance::Instance;
use crate::vulkan::VK_DEBUG_UTILS_MESSAGE_SEVERITY_ERROR_BIT_EXT;
use crate::vulkan::VK_DEBUG_UTILS_MESSAGE_SEVERITY_INFO_BIT_EXT;
use crate::vulkan::VK_DEBUG_UTILS_MESSAGE_SEVERITY_VERBOSE_BIT_EXT;
use crate::vulkan::VK_DEBUG_UTILS_MESSAGE_SEVERITY_WARNING_BIT_EXT;
use crate::vulkan::VK_DEBUG_UTILS_MESSAGE_TYPE_GENERAL_BIT_EXT;
use crate::vulkan::VK_DEBUG_UTILS_MESSAGE_TYPE_PERFORMANCE_BIT_EXT;
use crate::vulkan::VK_DEBUG_UTILS_MESSAGE_TYPE_VALIDATION_BIT_EXT;
use crate::vulkan::VK_FALSE;

verus! {

/// Descriptor for registering the diagnostic callback: which message
/// severities and which message categories the driver should deliver. The
/// callback registered through it is the default one modeled by
/// [`debug_callback_result`]: it prints the message text and always lets
/// execution continue.
#[derive(Debug, Clone, Copy, PartialEq, Eq)]
pub struct DebugUtilsMessengerCreateInfo {
    pub message_severity: u32,
    pub message_type: u32,
}

/// Diagnostic callback registration. Holds a non-owning reference to the
/// instance it was created from — it must not outlive it — and owns one
/// native messenger handle.
///
/// The creation and destruction entry points for this facility are not part
/// of the statically available dispatch table; the caller resolves them at
/// runtime by name ([`create_entry_point_name`], [`destroy_entry_point_name`])
/// through the instance's function-pointer-resolution capability, and must
/// never call through a resolution that yielded nothing.
#[derive(Debug)]
pub struct DebugMessenger<'a> {
    instance: &'a Instance,
    raw_handle: u64,
}

/// The default messenger descriptor: every severity (error, warning, info,
/// verbose) and every category (general, validation, performance) enabled.
pub open spec fn spec_default_messenger_create_info() -> DebugUtilsMessengerCreateInfo {
    DebugUtilsMessengerCreateInfo {
        message_severity: VK_DEBUG_UTILS_MESSAGE_SEVERITY_ERROR_BIT_EXT
            | VK_DEBUG_UTILS_MESSAGE_SEVERITY_WARNING_BIT_EXT
            | VK_DEBUG_UTILS_MESSAGE_SEVERITY_INFO_BIT_EXT
            | VK_DEBUG_UTILS_MESSAGE_SEVERITY_VERBOSE_BIT_EXT,
        message_type: VK_DEBUG_UTILS_MESSAGE_TYPE_GENERAL_BIT_EXT
            | VK_DEBUG_UTILS_MESSAGE_TYPE_PERFORMANCE_BIT_EXT
            | VK_DEBUG_UTILS_MESSAGE_TYPE_VALIDATION_BIT_EXT,
    }
}

/// Builds the messenger descriptor used everywhere in this crate: all
/// severities and all categories enabled, delivering to the default
/// callback.
pub fn get_debug_messenger_create_info() -> (r: DebugUtilsMessengerCreateInfo)
    ensures
        r == spec_default_messenger_create_info(),
{
    DebugUtilsMessengerCreateInfo {
        message_severity: VK_DEBUG_UTILS_MESSAGE_SEVERITY_ERROR_BIT_EXT
            | VK_DEBUG_UTILS_MESSAGE_SEVERITY_WARNING_BIT_EXT
            | VK_DEBUG_UTILS_MESSAGE_SEVERITY_INFO_BIT_EXT
            | VK_DEBUG_UTILS_MESSAGE_SEVERITY_VERBOSE_BIT_EXT,
        message_type: VK_DEBUG_UTILS_MESSAGE_TYPE_GENERAL_BIT_EXT
            | VK_DEBUG_UTILS_MESSAGE_TYPE_PERFORMANCE_BIT_EXT
            | VK_DEBUG_UTILS_MESSAGE_TYPE_VALIDATION_BIT_EXT,
    }
}

/// The default diagnostic callback's reply to the driver: whether the call
/// that triggered the message should be aborted. It always answers
/// "continue" (native false), whatever the message's severity or category;
/// printing the message text is the caller's concern, outside this crate.
pub fn debug_callback_result(_message_severity: u32, _message_type: u32) -> (r: u32)
    ensures
        r == VK_FALSE,
{
    VK_FALSE
}

/// The capability name under which the caller resolves the messenger
/// creation entry point.
pub open spec fn spec_create_entry_point_name() -> Seq<char> {
    "vkCreateDebugUtilsMessengerEXT"@
}

/// The capability name under which the caller resolves the messenger
/// creation entry point.
pub fn create_entry_point_name() -> (r: &'static str)
    ensures
        r@ == spec_create_entry_point_name(),
{
    "vkCreateDebugUtilsMessengerEXT"
}

/// The capability name under which the caller resolves the messenger
/// destruction entry point.
pub open spec fn spec_destroy_entry_point_name() -> Seq<char> {
    "vkDestroyDebugUtilsMessengerEXT"@
}

/// The capability name under which the caller resolves the messenger
/// destruction entry point.
pub fn destroy_entry_point_name() -> (r: &'static str)
    ensures
        r@ == spec_destroy_entry_point_name(),
{
    "vkDestroyDebugUtilsMessengerEXT"
}

impl<'a> DebugMessenger<'a> {
    /// The opaque native handle of the registered messenger.
    pub closed spec fn handle(&self) -> u64 {
        self.raw_handle
    }

    /// The handle of the instance this messenger was created from.
    pub closed spec fn instance_handle(&self) -> u64 {
        self.instance.handle()
    }

    /// The opaque native handle of the registered messenger.
    pub fn raw_handle(&self) -> (r: u64)
        ensures
            r == self.handle(),
    {
        self.raw_handle
    }

    /// Finishes messenger registration. `create_result` is the handle the
    /// creation entry point produced, or `None` when resolving that entry
    /// point by name yielded nothing — in which case it was never called,
    /// and registration fails with `ExtensionLookupFailed`.
    pub(crate) fn new(instance: &'a Instance, create_result: Option<u64>) -> (r: Result<
        DebugMessenger<'a>,
        Error,
    >)
        ensures
            match r {
                Ok(m) => {
                    &&& create_result.is_some()
                    &&& m.handle() == create_result.unwrap()
                    &&& m.instance_handle() == instance.handle()
                },
                Err(e) => {
                    &&& create_result.is_none()
                    &&& e == Error::ExtensionLookupFailed
                },
            },
    {
        match create_result {
            Some(raw_handle) => Ok(DebugMessenger { instance, raw_handle }),
            None => Err(Error::ExtensionLookupFailed),
        }
    }

    /// Gives up ownership for teardown. The destruction entry point is
    /// re-resolved by name at this point; `destroy_resolved` says whether
    /// that resolution yielded a function. When it did, the caller must
    /// invoke it on the returned pair of instance handle and messenger
    /// handle. When it did not, destruction is silently skipped — no call,
    /// no panic, no report. That silence is a deliberate, documented choice
    /// of this design rather than an accident: nothing useful can be done
    /// with a messenger whose destruction entry point has vanished.
    ///
    /// The messenger must be destroyed before the instance it was created
    /// from; the borrow it holds on the instance enforces that order at
    /// compile time.
    pub fn destroy(self, destroy_resolved: bool) -> (r: Option<(u64, u64)>)
        ensures
            destroy_resolved ==> r == Some((self.instance_handle(), self.handle())),
            !destroy_resolved ==> r.is_none(),
    {
        if destroy_resolved {
            Some((self.instance.raw_handle(), self.raw_handle))
        } else {
            None
        }
    }
}

} // verus!
