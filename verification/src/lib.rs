//! Resource-lifecycle and capability-negotiation layer over a native,
//! handle-based graphics driver interface.
//!
//! Before any rendering work can occur an application must discover driver
//! capabilities, create a root connection, optionally attach a diagnostic
//! callback, bind a presentable surface, enumerate candidate devices, select
//! queue families, and create a logical device. This crate holds the logic
//! of that sequence: descriptor construction, capability selection, name
//! decoding, error mapping, and the ownership and teardown discipline. The
//! native calls themselves, and the windowing system, live outside it; the
//! crate exchanges plain values with them: opaque handles, status codes,
//! bitmasks, and null-padded byte arrays. Enumeration at that boundary uses
//! the driver's recurring two-call protocol — query a count, then fetch
//! into a buffer sized to it — and this crate receives the fetched records.

pub mod vulkan;
pub mod error;
pub mod names;
pub mod debug_messenger;
pub mod device;
pub mod instance;
pub mod physical_device;
pub mod surface;

pub use debug_messenger::DebugMessenger;
pub use device::Device;
pub use error::Error;
pub use error::ResourceKind;
pub use instance::Instance;
pub use physical_device::DeviceType;
pub use physical_device::PhysicalDevice;
pub use physical_device::Properties;
pub use physical_device::QueueFamilyIndices;
pub use surface::Surface;
pub use vulkan::VK_MAKE_API_VERSION;
pub use vulkan::VK_MAKE_VERSION;
