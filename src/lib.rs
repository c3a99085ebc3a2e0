//! Setup, selection and frame-handling logic for a small Vulkan renderer that
//! draws one triangle. The graphics and windowing calls themselves are made by
//! the program around this library; here stand the decisions it takes on the
//! values those calls hand back.
mod device;
mod error;
mod frame;
mod queue;
mod renderer;
mod setup;
mod shader;
mod swapchain;
mod teardown;
mod version;
mod vertex_layout;

pub use device::{
    all_names_present, check_device_extensions_support, check_validation_layer_support,
    device_extensions, is_device_suitable, pick_physical_device, validation_layers,
    DeviceCandidate, SWAPCHAIN_EXTENSION_NAME, VALIDATION_LAYER_NAME,
};
pub use error::RenderError;
pub use frame::{
    FrameAction, MAX_MEMORY_TYPES, VK_ERROR_OUT_OF_DATE_KHR, VK_SUBOPTIMAL_KHR, VK_SUCCESS,
};
pub use queue::{
    find_queue_families, unique_queue_families, QueueFamilyIndices, QueueFamilyInfo,
    QUEUE_GRAPHICS_BIT,
};
pub use renderer::{Offset2D, Rect2D, VulkanApp};
pub use setup::{
    application_info, create_debug_messenger_create_info, plan_instance, ApplicationInfo,
    DebugMessengerSettings, DevicePlan, InitStep, InstancePlan, DEBUG_UTILS_EXTENSION_NAME,
    MESSAGE_SEVERITY_ERROR, MESSAGE_SEVERITY_INFO, MESSAGE_SEVERITY_VERBOSE,
    MESSAGE_SEVERITY_WARNING, MESSAGE_TYPE_GENERAL, MESSAGE_TYPE_PERFORMANCE,
    MESSAGE_TYPE_VALIDATION,
};
pub use shader::ShaderModuleWrapper;
pub use swapchain::{
    Extent2D, SurfaceCapabilities, SurfaceFormat, SwapChainSupportDetails,
    SwapChainPlan, COLOR_SPACE_SRGB_NONLINEAR, FORMAT_B8G8R8A8_SRGB, PRESENT_MODE_FIFO,
    SHARING_MODE_CONCURRENT, SHARING_MODE_EXCLUSIVE,
};
pub use teardown::{SwapChainResources, Teardown};
pub use version::{VK_MAKE_API_VERSION, VK_MAKE_VERSION};
pub use vertex_layout::{
    align_up, vertex_attribute_descriptions, vertex_binding_description, VertexAttribute,
    VertexBinding, FORMAT_R32G32B32_SFLOAT, FORMAT_R32G32_SFLOAT, VERTEX_INPUT_RATE_VERTEX,
};
