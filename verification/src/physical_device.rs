use vstd::prelude::*;

use crate::names::decode_fixed_name;
use crate::names::decoded_name;
use crate::vulkan::VK_PHYSICAL_DEVICE_TYPE_CPU;
use crate::vulkan::VK_PHYSICAL_DEVICE_TYPE_DISCRETE_GPU;
use crate::vulkan::VK_PHYSICAL_DEVICE_TYPE_INTEGRATED_GPU;
use crate::vulkan::VK_PHYSICAL_DEVICE_TYPE_OTHER;
use crate::vulkan::VK_PHYSICAL_DEVICE_TYPE_VIRTUAL_GPU;
use crate::vulkan::VK_QUEUE_GRAPHICS_BIT;

verus! {

/// Non-owning view over one candidate device enumerated from an instance.
/// It has no independent lifetime: the handle dangles the instant the
/// instance it came from is destroyed, and it is never explicitly destroyed
/// itself.
#[derive(Debug, Clone, Copy)]
pub struct PhysicalDevice {
    pub(crate) raw_handle: u64,
}

/// The broad category a device reports itself as.
#[derive(Debug, Clone, Copy, PartialEq, Eq)]
pub enum DeviceType {
    Other,
    IntegratedGPU,
    DiscreteGPU,
    VirtualGPU,
    CPU,
}

/// Decoded device properties: the device name and its category.
#[derive(Debug)]
pub struct Properties {
    pub name: String,
    pub device_type: DeviceType,
}

/// The capability record the driver reports for one queue family, reduced
/// to the plain values this crate reads: the capability bitmask.
#[derive(Debug, Clone, Copy, PartialEq, Eq)]
pub struct QueueFamilyProperties {
    pub queue_flags: u32,
}

/// The raw property record the driver fills for a device: a fixed-size,
/// null-padded name field and a native device-type tag.
#[derive(Debug)]
pub struct RawPhysicalDeviceProperties {
    pub device_name: Vec<u8>,
    pub device_type: i32,
}

/// Queue family indices selected for a physical device: the family used for
/// graphics work and the family used for presentation to a surface. The two
/// may coincide. Produced fresh by each selection call and owned by the
/// caller, with no lifetime tie to the device it was selected for.
#[derive(Debug, Clone, Copy, PartialEq, Eq)]
pub struct QueueFamilyIndices {
    pub graphics_family: Option<u32>,
    pub present_family: Option<u32>,
}

/// How an unrecognized native device-type tag maps: every known tag to its
/// category, anything else to `Other` rather than to a failure.
pub open spec fn spec_device_type(raw: i32) -> DeviceType {
    if raw == VK_PHYSICAL_DEVICE_TYPE_INTEGRATED_GPU {
        DeviceType::IntegratedGPU
    } else if raw == VK_PHYSICAL_DEVICE_TYPE_DISCRETE_GPU {
        DeviceType::DiscreteGPU
    } else if raw == VK_PHYSICAL_DEVICE_TYPE_VIRTUAL_GPU {
        DeviceType::VirtualGPU
    } else if raw == VK_PHYSICAL_DEVICE_TYPE_CPU {
        DeviceType::CPU
    } else {
        DeviceType::Other
    }
}

/// Whether a queue family's capability flags include the graphics bit.
pub open spec fn spec_has_graphics(family: QueueFamilyProperties) -> bool {
    family.queue_flags & VK_QUEUE_GRAPHICS_BIT != 0
}

/// The graphics role is assigned to the lowest family index whose
/// capability flags include the graphics bit, and stays unassigned when no
/// family has it.
pub open spec fn selects_graphics_family(
    families: Seq<QueueFamilyProperties>,
    choice: Option<u32>,
) -> bool {
    match choice {
        Some(g) => {
            &&& 0 <= g < families.len()
            &&& spec_has_graphics(families[g as int])
            &&& forall|j: int| 0 <= j < g ==> !spec_has_graphics(families[j])
        },
        None => forall|j: int| 0 <= j < families.len() ==> !spec_has_graphics(families[j]),
    }
}

/// The presentation role is assigned to the lowest family index that
/// reports presentation support against the surface, and stays unassigned
/// when none does.
pub open spec fn selects_present_family(
    present_support: Seq<bool>,
    choice: Option<u32>,
) -> bool {
    match choice {
        Some(p) => {
            &&& 0 <= p < present_support.len()
            &&& present_support[p as int]
            &&& forall|j: int| 0 <= j < p ==> !present_support[j]
        },
        None => forall|j: int| 0 <= j < present_support.len() ==> !present_support[j],
    }
}

impl QueueFamilyIndices {
    /// A selection is complete when both the graphics and the presentation
    /// role have been assigned a family index.
    pub open spec fn spec_is_complete(&self) -> bool {
        self.graphics_family.is_some() && self.present_family.is_some()
    }

    pub fn is_complete(&self) -> (r: bool)
        ensures
            r == self.spec_is_complete(),
    {
        if let Some(_) = self.graphics_family {
            if let Some(_) = self.present_family {
                true
            } else {
                false
            }
        } else {
            false
        }
    }
}

impl PhysicalDevice {
    /// The opaque native handle this view stands for.
    pub closed spec fn handle(&self) -> u64 {
        self.raw_handle
    }

    /// The opaque native handle this view stands for.
    pub fn raw_handle(&self) -> (r: u64)
        ensures
            r == self.handle(),
    {
        self.raw_handle
    }

    /// Wraps one handle from the driver's candidate-device enumeration.
    pub fn from_raw_handle(raw_handle: u64) -> (r: PhysicalDevice)
        ensures
            r.handle() == raw_handle,
    {
        PhysicalDevice { raw_handle }
    }

    /// Decodes the raw property record the driver filled for this device.
    /// The name field decodes like every null-padded name; an unrecognized
    /// device-type tag maps to `Other` rather than failing.
    pub fn get_properties(&self, raw: &RawPhysicalDeviceProperties) -> (r: Properties)
        ensures
            r.name@ == decoded_name(raw.device_name@),
            r.device_type == spec_device_type(raw.device_type),
    {
        let device_type = if raw.device_type == VK_PHYSICAL_DEVICE_TYPE_INTEGRATED_GPU {
            DeviceType::IntegratedGPU
        } else if raw.device_type == VK_PHYSICAL_DEVICE_TYPE_DISCRETE_GPU {
            DeviceType::DiscreteGPU
        } else if raw.device_type == VK_PHYSICAL_DEVICE_TYPE_VIRTUAL_GPU {
            DeviceType::VirtualGPU
        } else if raw.device_type == VK_PHYSICAL_DEVICE_TYPE_CPU {
            DeviceType::CPU
        } else {
            DeviceType::Other
        };
        Properties { name: decode_fixed_name(&raw.device_name), device_type }
    }

    /// Selects queue families for this device, scanning the driver-reported
    /// family records in ascending index order. `families[i]` is the
    /// capability record of family `i`; `present_support[i]` is the
    /// driver's answer to whether family `i` can present to the surface
    /// under consideration. Each role independently settles on the lowest
    /// matching index; one family may fill both roles. The scan stops early
    /// once both roles are assigned; if either is never found the result is
    /// incomplete, which is not an error here.
    pub fn find_queue_families(
        &self,
        families: &Vec<QueueFamilyProperties>,
        present_support: &Vec<bool>,
    ) -> (r: QueueFamilyIndices)
        requires
            families@.len() == present_support@.len(),
            families@.len() <= u32::MAX,
        ensures
            selects_graphics_family(families@, r.graphics_family),
            selects_present_family(present_support@, r.present_family),
    {
        let mut indices = QueueFamilyIndices { graphics_family: None, present_family: None };
        let mut i: usize = 0;
        while i < families.len()
            invariant
                families@.len() == present_support@.len(),
                families@.len() <= u32::MAX,
                0 <= i <= families@.len(),
                match indices.graphics_family {
                    Some(g) => {
                        &&& 0 <= g < i
                        &&& spec_has_graphics(families@[g as int])
                        &&& forall|j: int| 0 <= j < g ==> !spec_has_graphics(families@[j])
                    },
                    None => forall|j: int| 0 <= j < i ==> !spec_has_graphics(families@[j]),
                },
                match indices.present_family {
                    Some(p) => {
                        &&& 0 <= p < i
                        &&& present_support@[p as int]
                        &&& forall|j: int| 0 <= j < p ==> !present_support@[j]
                    },
                    None => forall|j: int| 0 <= j < i ==> !present_support@[j],
                },
            ensures
                selects_graphics_family(families@, indices.graphics_family),
                selects_present_family(present_support@, indices.present_family),
            decreases families@.len() - i,
        {
            if indices.graphics_family.is_none() && families[i].queue_flags & VK_QUEUE_GRAPHICS_BIT != 0 {
                indices.graphics_family = Some(i as u32);
            }
            if indices.present_family.is_none() && present_support[i] {
                indices.present_family = Some(i as u32);
            }
            i = i + 1;
            if indices.is_complete() {
                break;
            }
        }
        indices
    }
}

/// When no family reports presentation support, selection never assigns the
/// presentation role, whatever the graphics flags say, and the result is
/// therefore incomplete.
pub proof fn lemma_no_present_support_incomplete(
    families: Seq<QueueFamilyProperties>,
    present_support: Seq<bool>,
    r: QueueFamilyIndices,
)
    requires
        forall|j: int| 0 <= j < present_support.len() ==> !present_support[j],
        selects_graphics_family(families, r.graphics_family),
        selects_present_family(present_support, r.present_family),
    ensures
        r.present_family.is_none(),
        !r.spec_is_complete(),
{
}

} // verus!
