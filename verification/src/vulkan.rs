//! Plain-value model of the native graphics driver interface: status codes,
//! capability bitmasks, opaque handles, and the packed version encoding.
//!
//! The native boundary deals only in fixed-width integers: status codes
//! (`0` is success, negative values are distinct error categories treated
//! opaquely here), bitmask types for capabilities and message filtering, and
//! opaque fixed-width handles that are compared for equality but never
//! dereferenced by this crate.
#![allow(nonstandard_style)]

use vstd::prelude::*;

verus! {

/// Status code reported by every fallible native call: success.
pub const VK_SUCCESS: i32 = 0;

/// Status code for an entry point or extension that the driver does not offer.
pub const VK_ERROR_EXTENSION_NOT_PRESENT: i32 = -7;

/// Native boolean: false.
pub const VK_FALSE: u32 = 0;

/// Native boolean: true.
pub const VK_TRUE: u32 = 1;

/// Queue capability flag: the family can execute graphics commands.
pub const VK_QUEUE_GRAPHICS_BIT: u32 = 0x1;

/// Diagnostic message severity: verbose diagnostic output.
pub const VK_DEBUG_UTILS_MESSAGE_SEVERITY_VERBOSE_BIT_EXT: u32 = 0x1;

/// Diagnostic message severity: informational messages.
pub const VK_DEBUG_UTILS_MESSAGE_SEVERITY_INFO_BIT_EXT: u32 = 0x10;

/// Diagnostic message severity: warnings.
pub const VK_DEBUG_UTILS_MESSAGE_SEVERITY_WARNING_BIT_EXT: u32 = 0x100;

/// Diagnostic message severity: errors.
pub const VK_DEBUG_UTILS_MESSAGE_SEVERITY_ERROR_BIT_EXT: u32 = 0x1000;

/// Diagnostic message category: general events.
pub const VK_DEBUG_UTILS_MESSAGE_TYPE_GENERAL_BIT_EXT: u32 = 0x1;

/// Diagnostic message category: validation findings.
pub const VK_DEBUG_UTILS_MESSAGE_TYPE_VALIDATION_BIT_EXT: u32 = 0x2;

/// Diagnostic message category: performance advisories.
pub const VK_DEBUG_UTILS_MESSAGE_TYPE_PERFORMANCE_BIT_EXT: u32 = 0x4;

/// Native device type tag: anything unrecognized.
pub const VK_PHYSICAL_DEVICE_TYPE_OTHER: i32 = 0;

/// Native device type tag: a GPU integrated with the host processor.
pub const VK_PHYSICAL_DEVICE_TYPE_INTEGRATED_GPU: i32 = 1;

/// Native device type tag: a discrete GPU.
pub const VK_PHYSICAL_DEVICE_TYPE_DISCRETE_GPU: i32 = 2;

/// Native device type tag: a GPU virtualized by the environment.
pub const VK_PHYSICAL_DEVICE_TYPE_VIRTUAL_GPU: i32 = 3;

/// Native device type tag: the host processor itself.
pub const VK_PHYSICAL_DEVICE_TYPE_CPU: i32 = 4;

/// Size of the fixed, null-padded byte array holding an extension name.
pub const VK_MAX_EXTENSION_NAME_SIZE: usize = 256;

/// Size of the fixed, null-padded byte array holding a device name.
pub const VK_MAX_PHYSICAL_DEVICE_NAME_SIZE: usize = 256;

/// Name of the instance extension that enables the diagnostic messenger.
pub open spec fn spec_debug_utils_extension_name() -> Seq<char> {
    "VK_EXT_debug_utils"@
}

/// Name of the instance extension that enables the diagnostic messenger.
pub fn debug_utils_extension_name() -> (r: &'static str)
    ensures
        r@ == spec_debug_utils_extension_name(),
{
    "VK_EXT_debug_utils"
}

/// The single hard-coded validation layer requested when validation is on.
pub open spec fn spec_validation_layer_name() -> Seq<char> {
    "VK_LAYER_KHRONOS_validation"@
}

/// The single hard-coded validation layer requested when validation is on.
pub fn validation_layer_name() -> (r: &'static str)
    ensures
        r@ == spec_validation_layer_name(),
{
    "VK_LAYER_KHRONOS_validation"
}

/// Application version packing: ten bits of major, ten of minor, twelve of
/// patch.
pub open spec fn spec_make_version(major: u32, minor: u32, patch: u32) -> u32 {
    (major << 22) | (minor << 12) | patch
}

/// Target interface version packing: three bits of variant, seven of major,
/// ten of minor, twelve of patch.
pub open spec fn spec_make_api_version(variant: u32, major: u32, minor: u32, patch: u32) -> u32 {
    (variant << 29) | (major << 22) | (minor << 12) | patch
}

/// Packs an application version triple into the single 32-bit field the
/// native interface expects. When each component is in its reserved range,
/// the components can be read back out of the packed word, so distinct
/// in-range triples pack to distinct words.
pub fn VK_MAKE_VERSION(major: u32, minor: u32, patch: u32) -> (r: u32)
    ensures
        r == spec_make_version(major, minor, patch),
        major < 0x400 && minor < 0x400 && patch < 0x1000 ==> {
            &&& r >> 22 == major
            &&& (r >> 12) & 0x3ff == minor
            &&& r & 0xfff == patch
        },
{
    proof {
        assert(major < 0x400 && minor < 0x400 && patch < 0x1000 ==> {
            &&& ((major << 22) | (minor << 12) | patch) >> 22 == major
            &&& (((major << 22) | (minor << 12) | patch) >> 12) & 0x3ff == minor
            &&& ((major << 22) | (minor << 12) | patch) & 0xfff == patch
        }) by (bit_vector);
    }
    (major << 22) | (minor << 12) | patch
}

/// Packs a target interface version into the single 32-bit field the native
/// interface expects. When each component is in its reserved range, the
/// components can be read back out of the packed word.
pub fn VK_MAKE_API_VERSION(variant: u32, major: u32, minor: u32, patch: u32) -> (r: u32)
    ensures
        r == spec_make_api_version(variant, major, minor, patch),
        variant < 0x8 && major < 0x80 && minor < 0x400 && patch < 0x1000 ==> {
            &&& r >> 29 == variant
            &&& (r >> 22) & 0x7f == major
            &&& (r >> 12) & 0x3ff == minor
            &&& r & 0xfff == patch
        },
{
    proof {
        assert(variant < 0x8 && major < 0x80 && minor < 0x400 && patch < 0x1000 ==> {
            &&& ((variant << 29) | (major << 22) | (minor << 12) | patch) >> 29 == variant
            &&& (((variant << 29) | (major << 22) | (minor << 12) | patch) >> 22) & 0x7f == major
            &&& (((variant << 29) | (major << 22) | (minor << 12) | patch) >> 12) & 0x3ff == minor
            &&& ((variant << 29) | (major << 22) | (minor << 12) | patch) & 0xfff == patch
        }) by (bit_vector);
    }
    (variant << 29) | (major << 22) | (minor << 12) | patch
}

} // verus!
