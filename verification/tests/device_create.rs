use vulkan_triangle::Device;
use vulkan_triangle::Error;
use vulkan_triangle::QueueFamilyIndices;
use vulkan_triangle::ResourceKind;

#[test]
fn incomplete_selection_fails_without_a_descriptor() {
    let indices = QueueFamilyIndices { graphics_family: None, present_family: Some(0) };
    let r = Device::build_create_info(&indices);
    assert_eq!(r.unwrap_err(), Error::IncompleteCapabilities);
    let r = Device::new(&indices, 0, 9);
    assert_eq!(r.unwrap_err(), Error::IncompleteCapabilities);
}

#[test]
fn missing_present_role_also_fails() {
    let indices = QueueFamilyIndices { graphics_family: Some(0), present_family: None };
    assert_eq!(Device::new(&indices, 0, 9).unwrap_err(), Error::IncompleteCapabilities);
}

#[test]
fn coinciding_families_request_a_single_queue() {
    let indices = QueueFamilyIndices { graphics_family: Some(2), present_family: Some(2) };
    let info = Device::build_create_info(&indices).unwrap();
    assert_eq!(info.queue_create_infos.len(), 1);
    assert_eq!(info.queue_create_infos[0].queue_family_index, 2);
    assert_eq!(info.queue_create_infos[0].queue_count, 1);
}

#[test]
fn distinct_families_request_one_queue_each() {
    let indices = QueueFamilyIndices { graphics_family: Some(0), present_family: Some(3) };
    let info = Device::build_create_info(&indices).unwrap();
    assert_eq!(info.queue_create_infos.len(), 2);
    assert_eq!(info.queue_create_infos[0].queue_family_index, 0);
    assert_eq!(info.queue_create_infos[0].queue_count, 1);
    assert_eq!(info.queue_create_infos[1].queue_family_index, 3);
    assert_eq!(info.queue_create_infos[1].queue_count, 1);
}

#[test]
fn device_creation_succeeds_on_success_status() {
    let indices = QueueFamilyIndices { graphics_family: Some(0), present_family: Some(1) };
    let device = Device::new(&indices, 0, 77).unwrap();
    assert_eq!(device.raw_handle(), 77);
}

#[test]
fn device_creation_failure_keeps_native_status() {
    let indices = QueueFamilyIndices { graphics_family: Some(0), present_family: Some(1) };
    let r = Device::new(&indices, -4, 0);
    assert_eq!(
        r.unwrap_err(),
        Error::CreationFailed { resource_kind: ResourceKind::Device, native_status: -4 }
    );
}
