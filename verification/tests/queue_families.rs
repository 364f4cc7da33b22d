use vulkan_triangle::physical_device::QueueFamilyProperties;
use vulkan_triangle::physical_device::RawPhysicalDeviceProperties;
use vulkan_triangle::vulkan::VK_QUEUE_GRAPHICS_BIT;
use vulkan_triangle::DeviceType;
use vulkan_triangle::PhysicalDevice;
use vulkan_triangle::QueueFamilyIndices;

fn families(flags: &[u32]) -> Vec<QueueFamilyProperties> {
    flags.iter().map(|&queue_flags| QueueFamilyProperties { queue_flags }).collect()
}

#[test]
fn graphics_at_zero_present_at_one() {
    let device = PhysicalDevice::from_raw_handle(7);
    let r = device.find_queue_families(&families(&[VK_QUEUE_GRAPHICS_BIT, 0]), &vec![false, true]);
    assert_eq!(r.graphics_family, Some(0));
    assert_eq!(r.present_family, Some(1));
    assert!(r.is_complete());
}

#[test]
fn single_family_serves_both_roles() {
    let device = PhysicalDevice::from_raw_handle(7);
    let r = device.find_queue_families(&families(&[VK_QUEUE_GRAPHICS_BIT]), &vec![true]);
    assert_eq!(r.graphics_family, Some(0));
    assert_eq!(r.present_family, Some(0));
    assert!(r.is_complete());
}

#[test]
fn no_present_support_leaves_selection_incomplete() {
    let device = PhysicalDevice::from_raw_handle(7);
    let r = device.find_queue_families(
        &families(&[VK_QUEUE_GRAPHICS_BIT, VK_QUEUE_GRAPHICS_BIT, VK_QUEUE_GRAPHICS_BIT]),
        &vec![false, false, false],
    );
    assert_eq!(r.graphics_family, Some(0));
    assert_eq!(r.present_family, None);
    assert!(!r.is_complete());
}

#[test]
fn no_graphics_family_leaves_selection_incomplete() {
    let device = PhysicalDevice::from_raw_handle(7);
    let r = device.find_queue_families(&families(&[0, 0]), &vec![true, true]);
    assert_eq!(r.graphics_family, None);
    assert_eq!(r.present_family, Some(0));
    assert!(!r.is_complete());
}

#[test]
fn ties_resolve_to_lowest_index_for_each_role() {
    let device = PhysicalDevice::from_raw_handle(7);
    let r = device.find_queue_families(
        &families(&[0, VK_QUEUE_GRAPHICS_BIT, VK_QUEUE_GRAPHICS_BIT]),
        &vec![true, true, true],
    );
    assert_eq!(r.graphics_family, Some(1));
    assert_eq!(r.present_family, Some(0));
}

#[test]
fn no_families_reported_yields_empty_selection() {
    let device = PhysicalDevice::from_raw_handle(7);
    let r = device.find_queue_families(&families(&[]), &vec![]);
    assert_eq!(r.graphics_family, None);
    assert_eq!(r.present_family, None);
    assert!(!r.is_complete());
}

#[test]
fn is_complete_requires_both_roles() {
    assert!(QueueFamilyIndices { graphics_family: Some(0), present_family: Some(1) }.is_complete());
    assert!(!QueueFamilyIndices { graphics_family: Some(0), present_family: None }.is_complete());
    assert!(!QueueFamilyIndices { graphics_family: None, present_family: Some(1) }.is_complete());
    assert!(!QueueFamilyIndices { graphics_family: None, present_family: None }.is_complete());
}

#[test]
fn known_device_types_map_to_their_categories() {
    let device = PhysicalDevice::from_raw_handle(7);
    let mut raw = RawPhysicalDeviceProperties { device_name: b"Sample GPU\0".to_vec(), device_type: 0 };
    assert_eq!(device.get_properties(&raw).device_type, DeviceType::Other);
    raw.device_type = 1;
    assert_eq!(device.get_properties(&raw).device_type, DeviceType::IntegratedGPU);
    raw.device_type = 2;
    assert_eq!(device.get_properties(&raw).device_type, DeviceType::DiscreteGPU);
    raw.device_type = 3;
    assert_eq!(device.get_properties(&raw).device_type, DeviceType::VirtualGPU);
    raw.device_type = 4;
    assert_eq!(device.get_properties(&raw).device_type, DeviceType::CPU);
}

#[test]
fn unrecognized_device_type_defaults_to_other() {
    let device = PhysicalDevice::from_raw_handle(7);
    let raw = RawPhysicalDeviceProperties { device_name: b"Sample GPU\0".to_vec(), device_type: 99 };
    assert_eq!(device.get_properties(&raw).device_type, DeviceType::Other);
    let raw = RawPhysicalDeviceProperties { device_name: b"Sample GPU\0".to_vec(), device_type: -1 };
    assert_eq!(device.get_properties(&raw).device_type, DeviceType::Other);
}

#[test]
fn device_name_decodes_up_to_padding() {
    let device = PhysicalDevice::from_raw_handle(7);
    let mut device_name = b"Sample GPU".to_vec();
    while device_name.len() < 256 {
        device_name.push(0);
    }
    let raw = RawPhysicalDeviceProperties { device_name, device_type: 2 };
    let properties = device.get_properties(&raw);
    assert_eq!(properties.name, "Sample GPU");
}

#[test]
fn malformed_device_name_yields_sentinel() {
    let device = PhysicalDevice::from_raw_handle(7);
    let raw = RawPhysicalDeviceProperties { device_name: vec![0x80, 0x41, 0], device_type: 2 };
    assert_eq!(device.get_properties(&raw).name, "ERROR");
}
