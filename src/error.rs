use vstd::prelude::*;

verus! {

/// The ways in which a decision of the renderer can refuse to go on.
#[derive(Clone, Copy, Debug, PartialEq, Eq, Structural)]
pub enum RenderError {
    /// Validation was asked for, but its layers are not installed.
    ValidationLayersUnavailable,
    /// A step that needs the instance came before it was created.
    InstanceMissing,
    /// The logical device was to be created before a physical device was
    /// picked.
    NoPhysicalDeviceForLogicalDevice,
    /// A memory type was sought before a physical device was picked.
    NoPhysicalDeviceForMemoryType,
    /// A step that needs the window surface came before it was created.
    SurfaceMissing,
    /// No device with graphics API support was found.
    NoDevice,
    /// No device offers what the renderer needs.
    NoSuitableDevice,
    /// No memory type meets both the resource's and the renderer's needs.
    NoSuitableMemoryType,
    /// The next swap chain image could not be had.
    AcquireFailed,
    /// The rendered image could not be presented.
    PresentFailed,
}

impl RenderError {
    /// A sentence describing the error, for the user.
    pub fn message(&self) -> (r: &'static str)
        ensures
            *self == RenderError::ValidationLayersUnavailable ==> r@ == "Validation layers requested, but not available!"@,
            *self == RenderError::InstanceMissing ==> r@ == "Cannot set up debug messenger if vk_instance is not initialized!"@,
            *self == RenderError::NoPhysicalDeviceForLogicalDevice ==> r@
                == "\"physical_device\" must be set before calling \"create_logical_device\"!"@,
            *self == RenderError::NoPhysicalDeviceForMemoryType ==> r@
                == "Cannot find memory type if physical_device is null!"@,
            *self == RenderError::SurfaceMissing ==> r@ == "surface must be initialized before calling query_swap_chain_support!"@,
            *self == RenderError::NoDevice ==> r@ == "Failed to find GPUs with Vulkan support!"@,
            *self == RenderError::NoSuitableDevice ==> r@ == "Failed to find a suitable GPU!"@,
            *self == RenderError::NoSuitableMemoryType ==> r@ == "Failed to find suitable memory type!"@,
            *self == RenderError::AcquireFailed ==> r@ == "Failed to acquire swap chain image!"@,
            *self == RenderError::PresentFailed ==> r@ == "Failed to present swap chain image!"@,
    {
        match self {
            RenderError::ValidationLayersUnavailable => "Validation layers requested, but not available!",
            RenderError::InstanceMissing => "Cannot set up debug messenger if vk_instance is not initialized!",
            RenderError::NoPhysicalDeviceForLogicalDevice => {
                "\"physical_device\" must be set before calling \"create_logical_device\"!"
            },
            RenderError::NoPhysicalDeviceForMemoryType => {
                "Cannot find memory type if physical_device is null!"
            },
            RenderError::SurfaceMissing => "surface must be initialized before calling query_swap_chain_support!",
            RenderError::NoDevice => "Failed to find GPUs with Vulkan support!",
            RenderError::NoSuitableDevice => "Failed to find a suitable GPU!",
            RenderError::NoSuitableMemoryType => "Failed to find suitable memory type!",
            RenderError::AcquireFailed => "Failed to acquire swap chain image!",
            RenderError::PresentFailed => "Failed to present swap chain image!",
        }
    }
}

} // verus!
