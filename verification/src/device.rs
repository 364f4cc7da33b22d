use vstd::prelude::*;

use crate::error::Error;
use crate::error::ResourceKind;
use crate::physical_device::QueueFamilyIndices;
use crate::vulkan::VK_SUCCESS;

verus! {

/// Logical device: owns one native logical-device handle. Queue handles
/// obtained from it are views, implicitly owned by the device and never
/// separately destroyed.
#[derive(Debug)]
pub struct Device {
    raw_handle: u64,
}

/// One queue request in a device-creation descriptor. Every request made by
/// this crate asks for exactly one queue, at the fixed full priority the
/// native interface expresses as 1.0; the priority value itself is supplied
/// where the descriptor is lowered to the native struct, since it is the
/// same for every request by design.
#[derive(Debug, Clone, Copy, PartialEq, Eq)]
pub struct DeviceQueueCreateInfo {
    pub queue_family_index: u32,
    pub queue_count: u32,
}

/// Device-creation descriptor: one queue request per unique selected family
/// index. No named device features are requested (the native feature struct
/// is zero-initialized where this descriptor is lowered) — a deliberate
/// minimal-bring-up policy.
#[derive(Debug)]
pub struct DeviceCreateInfo {
    pub queue_create_infos: Vec<DeviceQueueCreateInfo>,
}

impl DeviceCreateInfo {
    /// The descriptor built from a complete selection: the graphics family
    /// first, then the presentation family when it differs — exactly one
    /// queue request per unique family index, each for a single queue.
    pub open spec fn spec_for_selection(&self, g: u32, p: u32) -> bool {
        &&& self.queue_create_infos@.len() == if g == p {
            1int
        } else {
            2int
        }
        &&& self.queue_create_infos@[0] == (DeviceQueueCreateInfo {
            queue_family_index: g,
            queue_count: 1,
        })
        &&& g != p ==> self.queue_create_infos@[1] == (DeviceQueueCreateInfo {
            queue_family_index: p,
            queue_count: 1,
        })
    }
}

impl Device {
    /// The opaque native handle of the logical device.
    pub closed spec fn handle(&self) -> u64 {
        self.raw_handle
    }

    /// The opaque native handle of the logical device.
    pub fn raw_handle(&self) -> (r: u64)
        ensures
            r == self.handle(),
    {
        self.raw_handle
    }

    /// Builds the device-creation descriptor for a completed queue-family
    /// selection. An incomplete selection is rejected immediately — the
    /// caller has no descriptor to hand to the driver, so no native call
    /// can be made for it. A complete selection is deduplicated: the
    /// graphics and presentation families may coincide, and then produce a
    /// single queue request, not two.
    pub fn build_create_info(queue_family_indices: &QueueFamilyIndices) -> (r: Result<
        DeviceCreateInfo,
        Error,
    >)
        ensures
            match r {
                Ok(info) => {
                    &&& queue_family_indices.spec_is_complete()
                    &&& info.spec_for_selection(
                        queue_family_indices.graphics_family.unwrap(),
                        queue_family_indices.present_family.unwrap(),
                    )
                },
                Err(e) => {
                    &&& !queue_family_indices.spec_is_complete()
                    &&& e == Error::IncompleteCapabilities
                },
            },
    {
        let (g, p) = match (queue_family_indices.graphics_family, queue_family_indices.present_family) {
            (Some(g), Some(p)) => (g, p),
            _ => {
                return Err(Error::IncompleteCapabilities);
            },
        };
        let mut queue_create_infos: Vec<DeviceQueueCreateInfo> = Vec::new();
        queue_create_infos.push(DeviceQueueCreateInfo { queue_family_index: g, queue_count: 1 });
        if p != g {
            queue_create_infos.push(
                DeviceQueueCreateInfo { queue_family_index: p, queue_count: 1 },
            );
        }
        Ok(DeviceCreateInfo { queue_create_infos })
    }

    /// Finishes logical-device creation from the driver's reply to the
    /// descriptor built for `queue_family_indices`. An incomplete selection
    /// fails with `IncompleteCapabilities` whatever the driver said (such a
    /// selection never yields a descriptor in the first place); a
    /// non-success status maps to `CreationFailed` carrying the status
    /// verbatim; success yields the device owning the new handle.
    pub fn new(
        queue_family_indices: &QueueFamilyIndices,
        native_status: i32,
        raw_handle: u64,
    ) -> (r: Result<Device, Error>)
        ensures
            match r {
                Ok(device) => {
                    &&& queue_family_indices.spec_is_complete()
                    &&& native_status == VK_SUCCESS
                    &&& device.handle() == raw_handle
                },
                Err(e) => {
                    &&& if !queue_family_indices.spec_is_complete() {
                        e == Error::IncompleteCapabilities
                    } else {
                        &&& native_status != VK_SUCCESS
                        &&& e == (Error::CreationFailed {
                            resource_kind: ResourceKind::Device,
                            native_status,
                        })
                    }
                },
            },
    {
        if !queue_family_indices.is_complete() {
            return Err(Error::IncompleteCapabilities);
        }
        if native_status != VK_SUCCESS {
            return Err(
                Error::CreationFailed { resource_kind: ResourceKind::Device, native_status },
            );
        }
        Ok(Device { raw_handle })
    }

    /// Gives up ownership for teardown and returns the native handle the
    /// caller must now destroy. Queue handles derived from the device are
    /// views and need no destruction of their own. The device must be
    /// destroyed before the instance its physical device came from.
    pub fn destroy(self) -> (r: u64)
        ensures
            r == self.handle(),
    {
        self.raw_handle
    }
}

} // verus!
