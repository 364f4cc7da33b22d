use vulkan_triangle::debug_messenger::create_entry_point_name;
use vulkan_triangle::debug_messenger::debug_callback_result;
use vulkan_triangle::debug_messenger::destroy_entry_point_name;
use vulkan_triangle::vulkan::VK_FALSE;
use vulkan_triangle::Device;
use vulkan_triangle::Error;
use vulkan_triangle::Instance;
use vulkan_triangle::QueueFamilyIndices;

#[test]
fn end_to_end_bring_up_and_reverse_teardown() {
    // Bring-up, in creation order: instance with validation, messenger,
    // surface, device. The handles stand in for what the driver would
    // return at each step.
    let info = Instance::build_create_info(
        "demo",
        vec!["VK_KHR_surface".to_string()],
        0,
        1,
        0,
        true,
    );
    let instance = Instance::new(&info, 0, 100).unwrap();
    let messenger = instance.create_debug_messenger(Some(200)).unwrap();
    let surface = instance.create_window_surface(300);
    let indices = QueueFamilyIndices { graphics_family: Some(0), present_family: Some(0) };
    let device = Device::new(&indices, 0, 400).unwrap();

    // Teardown must run in the exact reverse of creation order: device,
    // surface, messenger, instance. Destroying the instance earlier is
    // rejected at compile time, because the surface and the messenger
    // still borrow it.
    assert_eq!(device.destroy(), 400);
    assert_eq!(surface.destroy(), (100, 300));
    assert_eq!(messenger.destroy(true), Some((100, 200)));
    assert_eq!(instance.destroy(), 100);
}

#[test]
fn messenger_registration_fails_when_entry_point_is_missing() {
    let info = Instance::build_create_info("demo", Vec::new(), 0, 1, 0, true);
    let instance = Instance::new(&info, 0, 100).unwrap();
    let r = instance.create_debug_messenger(None);
    assert_eq!(r.unwrap_err(), Error::ExtensionLookupFailed);
    instance.destroy();
}

#[test]
fn messenger_teardown_is_silently_skipped_without_entry_point() {
    let info = Instance::build_create_info("demo", Vec::new(), 0, 1, 0, true);
    let instance = Instance::new(&info, 0, 100).unwrap();
    let messenger = instance.create_debug_messenger(Some(200)).unwrap();
    assert_eq!(messenger.destroy(false), None);
    instance.destroy();
}

#[test]
fn surface_teardown_names_its_instance() {
    let info = Instance::build_create_info("demo", Vec::new(), 0, 1, 0, false);
    let instance = Instance::new(&info, 0, 11).unwrap();
    let surface = instance.create_window_surface(22);
    assert_eq!(surface.raw_handle(), 22);
    assert_eq!(surface.destroy(), (11, 22));
    assert_eq!(instance.destroy(), 11);
}

#[test]
fn debug_callback_always_continues() {
    assert_eq!(debug_callback_result(0x1000, 0x2), VK_FALSE);
    assert_eq!(debug_callback_result(0x1, 0x1), VK_FALSE);
}

#[test]
fn messenger_entry_points_are_resolved_by_these_names() {
    assert_eq!(create_entry_point_name(), "vkCreateDebugUtilsMessengerEXT");
    assert_eq!(destroy_entry_point_name(), "vkDestroyDebugUtilsMessengerEXT");
}

#[test]
fn errors_describe_themselves() {
    assert_eq!(
        Error::IncompleteCapabilities.describe(),
        "no usable graphics and presentation queue families"
    );
    assert_eq!(
        Error::ExtensionLookupFailed.describe(),
        "a required entry point could not be resolved"
    );
}
