//! Error taxonomy for the bring-up sequence.
//!
//! Every fallible operation reports to its immediate caller; creation
//! failures are terminal for the resource concerned, with no retry and no
//! fallback creation path.

use vstd::prelude::*;

verus! {

/// The resource whose creation the driver rejected.
#[derive(Debug, Clone, Copy, PartialEq, Eq)]
pub enum ResourceKind {
    Instance,
    Surface,
    Device,
}

/// Why a step of the bring-up sequence failed.
#[derive(Debug, Clone, Copy, PartialEq, Eq)]
pub enum Error {
    /// The driver reported a non-success status while creating a resource.
    /// The status is kept verbatim and treated opaquely beyond the
    /// success/failure distinction.
    CreationFailed { resource_kind: ResourceKind, native_status: i32 },
    /// A by-name entry-point resolution returned nothing, so the call it
    /// would have enabled was never made.
    ExtensionLookupFailed,
    /// Queue-family selection did not find both required roles.
    IncompleteCapabilities,
}

impl Error {
    /// A short description of the error, for display by callers.
    pub fn describe(&self) -> (r: &'static str)
        ensures
            match self {
                Error::CreationFailed { .. } => r@ == "the driver rejected resource creation"@,
                Error::ExtensionLookupFailed => r@ == "a required entry point could not be resolved"@,
                Error::IncompleteCapabilities => r@
                    == "no usable graphics and presentation queue families"@,
            },
    {
        match self {
            Error::CreationFailed { .. } => "the driver rejected resource creation",
            Error::ExtensionLookupFailed => "a required entry point could not be resolved",
            Error::IncompleteCapabilities => "no usable graphics and presentation queue families",
        }
    }
}

} // verus!
