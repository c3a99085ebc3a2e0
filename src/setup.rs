use vstd::prelude::*;
use crate::device::{
    check_validation_layer_support, device_extension_names, device_extensions, names_of,
    names_present, validation_layer_names, validation_layers,
};
use crate::error::RenderError;
use crate::queue::{indices_complete, unique_queue_families, QueueFamilyIndices};
use crate::renderer::VulkanApp;
use crate::version::{packed_api_version, packed_version, VK_MAKE_API_VERSION, VK_MAKE_VERSION};

verus! {

/// The instance extension that the debug messenger needs.
pub const DEBUG_UTILS_EXTENSION_NAME: &'static str = "VK_EXT_debug_utils";

pub const MESSAGE_SEVERITY_VERBOSE: u32 = 0x1;
pub const MESSAGE_SEVERITY_INFO: u32 = 0x10;
pub const MESSAGE_SEVERITY_WARNING: u32 = 0x100;
pub const MESSAGE_SEVERITY_ERROR: u32 = 0x1000;

pub const MESSAGE_TYPE_GENERAL: u32 = 0x1;
pub const MESSAGE_TYPE_VALIDATION: u32 = 0x2;
pub const MESSAGE_TYPE_PERFORMANCE: u32 = 0x4;

/// Which messages the debug messenger passes on: bit sets of severities and
/// of kinds.
#[derive(Clone, Copy, Debug, PartialEq, Eq, Structural)]
pub struct DebugMessengerSettings {
    pub message_severity: u32,
    pub message_type: u32,
}

/// The debug messenger's settings: verbose messages, warnings and errors, of
/// every kind (general, validation, performance). Informational messages are
/// left out.
pub fn create_debug_messenger_create_info() -> (r: DebugMessengerSettings)
    ensures
        r.message_severity == 0x1101,
        r.message_type == 0x7,
        r.message_severity & MESSAGE_SEVERITY_INFO == 0,
{
    let r = DebugMessengerSettings {
        message_severity: MESSAGE_SEVERITY_VERBOSE | MESSAGE_SEVERITY_WARNING
            | MESSAGE_SEVERITY_ERROR,
        message_type: MESSAGE_TYPE_GENERAL | MESSAGE_TYPE_VALIDATION | MESSAGE_TYPE_PERFORMANCE,
    };
    assert(0x1u32 | 0x100u32 | 0x1000u32 == 0x1101u32) by (bit_vector);
    assert(0x1u32 | 0x2u32 | 0x4u32 == 0x7u32) by (bit_vector);
    assert(0x1101u32 & 0x10u32 == 0u32) by (bit_vector);
    r
}

/// What the program tells the graphics API about itself.
pub struct ApplicationInfo {
    pub application_name: String,
    pub application_version: u32,
    pub engine_name: String,
    pub engine_version: u32,
    pub api_version: u32,
}

/// The program's description: "Vulkan Triangle" at version 1.0.0, with no
/// engine (named "No Engine", also at 1.0.0), asking for API version 1.0.
pub fn application_info() -> (r: ApplicationInfo)
    ensures
        r.application_name@ == "Vulkan Triangle"@,
        r.application_version == packed_version(1, 0, 0),
        r.application_version == 0x400000,
        r.engine_name@ == "No Engine"@,
        r.engine_version == packed_version(1, 0, 0),
        r.api_version == packed_api_version(0, 1, 0, 0),
        r.api_version == 0x400000,
{
    ApplicationInfo {
        application_name: "Vulkan Triangle".to_owned(),
        application_version: VK_MAKE_VERSION(1, 0, 0),
        engine_name: "No Engine".to_owned(),
        engine_version: VK_MAKE_VERSION(1, 0, 0),
        api_version: VK_MAKE_API_VERSION(0, 1, 0, 0),
    }
}

/// How the instance is to be created.
pub struct InstancePlan {
    pub extensions: Vec<String>,
    pub layers: Vec<String>,
    /// Whether the debug messenger's settings go along with the creation, so
    /// that creating the instance itself is watched.
    pub watch_creation: bool,
}

/// The instance's extensions, layers and watch: with validation, the window
/// system's extensions followed by the debug extension, the validation
/// layers, and a watch on creation; without it, the window system's
/// extensions alone, no layer and no watch.
pub fn plan_instance(window_extensions: &Vec<String>, validation_enabled: bool) -> (r:
    InstancePlan)
    ensures
        validation_enabled ==> names_of(r.extensions@) == names_of(window_extensions@).push(
            DEBUG_UTILS_EXTENSION_NAME@,
        ),
        !validation_enabled ==> names_of(r.extensions@) == names_of(window_extensions@),
        validation_enabled ==> names_of(r.layers@) == validation_layer_names(),
        !validation_enabled ==> r.layers@.len() == 0,
        r.watch_creation == validation_enabled,
{
    let mut extensions: Vec<String> = Vec::new();
    let mut i: usize = 0;
    while i < window_extensions.len()
        invariant
            i <= window_extensions@.len(),
            names_of(extensions@) == names_of(window_extensions@.subrange(0, i as int)),
        decreases window_extensions@.len() - i,
    {
        let ghost before = extensions@;
        let name = window_extensions[i].clone();
        extensions.push(name);
        proof {
            assert(extensions@ == before.push(window_extensions@[i as int]));
            assert(names_of(extensions@) =~= names_of(before).push(window_extensions@[i as int]@));
            assert(window_extensions@.subrange(0, i + 1) =~= window_extensions@.subrange(
                0,
                i as int,
            ).push(window_extensions@[i as int]));
            assert(names_of(extensions@) =~= names_of(
                window_extensions@.subrange(0, i + 1),
            ));
        }
        i = i + 1;
    }
    assert(window_extensions@.subrange(0, i as int) =~= window_extensions@);
    let layers: Vec<String>;
    if validation_enabled {
        let ghost before = extensions@;
        extensions.push(DEBUG_UTILS_EXTENSION_NAME.to_owned());
        assert(names_of(extensions@) =~= names_of(before).push(DEBUG_UTILS_EXTENSION_NAME@));
        layers = validation_layers();
    } else {
        layers = Vec::new();
    }
    InstancePlan { extensions, layers, watch_creation: validation_enabled }
}

/// How the logical device is to be created.
pub struct DevicePlan {
    /// One queue from each of these families.
    pub queue_families: Vec<u32>,
    pub extensions: Vec<String>,
    pub layers: Vec<String>,
}

/// The stages of setting up the renderer, in the order the graphics API
/// requires: each object is created after those it is made from.
#[derive(Clone, Copy, Debug, PartialEq, Eq, Structural)]
pub enum InitStep {
    CreateInstance,
    SetupDebugMessenger,
    CreateSurface,
    PickPhysicalDevice,
    CreateLogicalDevice,
    CreateSwapChain,
    CreateImageViews,
    CreateRenderPass,
    CreateGraphicsPipeline,
    CreateFramebuffers,
    CreateCommandPool,
    CreateCommandBuffer,
    CreateVertexBuffer,
    CreateSyncObjects,
}

pub open spec fn init_order() -> Seq<InitStep> {
    seq![
        InitStep::CreateInstance,
        InitStep::SetupDebugMessenger,
        InitStep::CreateSurface,
        InitStep::PickPhysicalDevice,
        InitStep::CreateLogicalDevice,
        InitStep::CreateSwapChain,
        InitStep::CreateImageViews,
        InitStep::CreateRenderPass,
        InitStep::CreateGraphicsPipeline,
        InitStep::CreateFramebuffers,
        InitStep::CreateCommandPool,
        InitStep::CreateCommandBuffer,
        InitStep::CreateVertexBuffer,
        InitStep::CreateSyncObjects,
    ]
}

impl VulkanApp {
    /// The setup stages to run, in order. Fails, before any stage, where
    /// validation is asked for and its layers are not among the installed
    /// ones.
    pub fn init_vulkan(&self, validation_enabled: bool, available_layers: &Vec<String>) -> (r:
        Result<Vec<InitStep>, RenderError>)
        ensures
            validation_enabled && !names_present(
                validation_layer_names(),
                names_of(available_layers@),
            ) ==> r == Err::<Vec<InitStep>, RenderError>(
                RenderError::ValidationLayersUnavailable,
            ),
            !(validation_enabled && !names_present(
                validation_layer_names(),
                names_of(available_layers@),
            )) ==> r is Ok && r->Ok_0@ == init_order(),
    {
        if validation_enabled && !check_validation_layer_support(available_layers) {
            return Err(RenderError::ValidationLayersUnavailable);
        }
        let mut steps: Vec<InitStep> = Vec::new();
        steps.push(InitStep::CreateInstance);
        steps.push(InitStep::SetupDebugMessenger);
        steps.push(InitStep::CreateSurface);
        steps.push(InitStep::PickPhysicalDevice);
        steps.push(InitStep::CreateLogicalDevice);
        steps.push(InitStep::CreateSwapChain);
        steps.push(InitStep::CreateImageViews);
        steps.push(InitStep::CreateRenderPass);
        steps.push(InitStep::CreateGraphicsPipeline);
        steps.push(InitStep::CreateFramebuffers);
        steps.push(InitStep::CreateCommandPool);
        steps.push(InitStep::CreateCommandBuffer);
        steps.push(InitStep::CreateVertexBuffer);
        steps.push(InitStep::CreateSyncObjects);
        assert(steps@ =~= init_order());
        Ok(steps)
    }

    /// Whether and how to set up the debug messenger: not at all without
    /// validation (`Ok(None)`); with it, the messenger's settings, or
    /// `InstanceMissing` where no instance has been created.
    pub fn setup_debug_messenger(&self, validation_enabled: bool) -> (r: Result<
        Option<DebugMessengerSettings>,
        RenderError,
    >)
        ensures
            !validation_enabled ==> r == Ok::<Option<DebugMessengerSettings>, RenderError>(None),
            validation_enabled && self.vk_instance == 0 ==> r == Err::<
                Option<DebugMessengerSettings>,
                RenderError,
            >(RenderError::InstanceMissing),
            validation_enabled && self.vk_instance != 0 ==> r is Ok && r->Ok_0 is Some
                && r->Ok_0->0.message_severity == 0x1101 && r->Ok_0->0.message_type == 0x7,
    {
        if !validation_enabled {
            return Ok(None);
        }
        if self.vk_instance == 0 {
            return Err(RenderError::InstanceMissing);
        }
        Ok(Some(create_debug_messenger_create_info()))
    }

    /// How to create the logical device: one queue from each distinct chosen
    /// family, the needed device extensions, and the validation layers where
    /// validation is on. Fails with `NoPhysicalDeviceForLogicalDevice` where no physical
    /// device has been picked.
    pub fn plan_logical_device(&self, indices: &QueueFamilyIndices, validation_enabled: bool) -> (r:
        Result<DevicePlan, RenderError>)
        requires
            indices_complete(*indices),
        ensures
            self.physical_device == 0 <==> r is Err,
            r is Err ==> r->Err_0 == RenderError::NoPhysicalDeviceForLogicalDevice,
            r is Ok ==> {
                let p = r->Ok_0;
                &&& p.queue_families@ == if indices.graphics_family == indices.present_family {
                    seq![indices.graphics_family->0]
                } else {
                    seq![indices.graphics_family->0, indices.present_family->0]
                }
                &&& names_of(p.extensions@) == device_extension_names()
                &&& validation_enabled ==> names_of(p.layers@) == validation_layer_names()
                &&& !validation_enabled ==> p.layers@.len() == 0
            },
    {
        if self.physical_device == 0 {
            return Err(RenderError::NoPhysicalDeviceForLogicalDevice);
        }
        let queue_families = unique_queue_families(indices);
        let extensions = device_extensions();
        let layers: Vec<String>;
        if validation_enabled {
            layers = validation_layers();
        } else {
            layers = Vec::new();
        }
        Ok(DevicePlan { queue_families, extensions, layers })
    }
}

} // verus!
