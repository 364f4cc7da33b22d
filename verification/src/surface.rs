use vstd::prelude::*;

use crate::instance::Instance;

verus! {

/// Presentable drawing target bound to a window. Holds a non-owning
/// reference to the instance it was created from — it must not outlive it —
/// and owns one native surface handle.
///
/// Surface creation itself is delegated entirely to the windowing
/// collaborator's platform-specific routine; this type does no platform
/// branching of its own, it only owns the resulting handle and its
/// teardown.
#[derive(Debug)]
pub struct Surface<'a> {
    instance: &'a Instance,
    raw_handle: u64,
}

impl<'a> Surface<'a> {
    /// The opaque native handle of the surface.
    pub closed spec fn handle(&self) -> u64 {
        self.raw_handle
    }

    /// The handle of the instance this surface was created from.
    pub closed spec fn instance_handle(&self) -> u64 {
        self.instance.handle()
    }

    /// The opaque native handle of the surface.
    pub fn raw_handle(&self) -> (r: u64)
        ensures
            r == self.handle(),
    {
        self.raw_handle
    }

    /// Takes ownership of a surface handle the windowing collaborator
    /// produced for the given instance.
    pub(crate) fn attach(instance: &'a Instance, raw_handle: u64) -> (r: Surface<'a>)
        ensures
            r.instance_handle() == instance.handle(),
            r.handle() == raw_handle,
    {
        Surface { instance, raw_handle }
    }

    /// Gives up ownership for teardown and returns the pair of instance
    /// handle and surface handle on which the caller must now invoke the
    /// native surface destruction.
    ///
    /// The surface must be destroyed before the instance it was created
    /// from; the borrow it holds on the instance enforces that order at
    /// compile time.
    pub fn destroy(self) -> (r: (u64, u64))
        ensures
            r.0 == self.instance_handle(),
            r.1 == self.handle(),
    {
        (self.instance.raw_handle(), self.raw_handle)
    }
}

} // verus!
