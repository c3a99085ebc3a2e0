use vstd::prelude::*;
use crate::swapchain::Extent2D;

verus! {

/// A signed 2D offset, in pixels.
#[derive(Clone, Copy, Debug, PartialEq, Eq, Structural)]
pub struct Offset2D {
    pub x: i32,
    pub y: i32,
}

/// A rectangle given by its corner and its size.
#[derive(Clone, Copy, Debug, PartialEq, Eq, Structural)]
pub struct Rect2D {
    pub offset: Offset2D,
    pub extent: Extent2D,
}

/// The renderer's state: the handle of each object it has created (0 while
/// there is none), the swap chain's images and their views and framebuffers,
/// the swap chain's format and size, and whether the window was resized since
/// the swap chain was last built.
pub struct VulkanApp {
    pub window: u64,
    pub vk_instance: u64,
    pub debug_messenger: u64,
    pub surface: u64,
    pub physical_device: u64,
    pub device: u64,
    pub graphics_queue: u64,
    pub present_queue: u64,
    pub swap_chain: u64,
    pub swap_chain_images: Vec<u64>,
    pub swap_chain_image_format: u32,
    pub swap_chain_extent: Extent2D,
    pub swap_chain_image_views: Vec<u64>,
    pub render_pass: u64,
    pub pipeline_layout: u64,
    pub graphics_pipeline: u64,
    pub swap_chain_framebuffers: Vec<u64>,
    pub command_pool: u64,
    pub command_buffer: u64,
    pub image_available_semaphore: u64,
    pub render_finished_semaphore: u64,
    pub in_flight_fence: u64,
    pub framebuffer_resized: bool,
    pub vertex_buffer: u64,
    pub vertex_buffer_memory: u64,
}

impl VulkanApp {
    /// Whether no object has been created yet and nothing is pending.
    pub open spec fn is_blank(&self) -> bool {
        &&& self.window == 0
        &&& self.vk_instance == 0
        &&& self.debug_messenger == 0
        &&& self.surface == 0
        &&& self.physical_device == 0
        &&& self.device == 0
        &&& self.graphics_queue == 0
        &&& self.present_queue == 0
        &&& self.swap_chain == 0
        &&& self.swap_chain_images@.len() == 0
        &&& self.swap_chain_image_format == 0
        &&& self.swap_chain_extent == (Extent2D { width: 0, height: 0 })
        &&& self.swap_chain_image_views@.len() == 0
        &&& self.render_pass == 0
        &&& self.pipeline_layout == 0
        &&& self.graphics_pipeline == 0
        &&& self.swap_chain_framebuffers@.len() == 0
        &&& self.command_pool == 0
        &&& self.command_buffer == 0
        &&& self.image_available_semaphore == 0
        &&& self.render_finished_semaphore == 0
        &&& self.in_flight_fence == 0
        &&& !self.framebuffer_resized
        &&& self.vertex_buffer == 0
        &&& self.vertex_buffer_memory == 0
    }

    /// A renderer with no object created yet.
    pub fn new() -> (r: Self)
        ensures
            r.is_blank(),
    {
        VulkanApp {
            window: 0,
            vk_instance: 0,
            debug_messenger: 0,
            surface: 0,
            physical_device: 0,
            device: 0,
            graphics_queue: 0,
            present_queue: 0,
            swap_chain: 0,
            swap_chain_images: Vec::new(),
            swap_chain_image_format: 0,
            swap_chain_extent: Extent2D { width: 0, height: 0 },
            swap_chain_image_views: Vec::new(),
            render_pass: 0,
            pipeline_layout: 0,
            graphics_pipeline: 0,
            swap_chain_framebuffers: Vec::new(),
            command_pool: 0,
            command_buffer: 0,
            image_available_semaphore: 0,
            render_finished_semaphore: 0,
            in_flight_fence: 0,
            framebuffer_resized: false,
            vertex_buffer: 0,
            vertex_buffer_memory: 0,
        }
    }

    /// Notes that the window's framebuffer changed size, so that the swap chain
    /// is rebuilt after the next present.
    pub fn set_resize_flag(&mut self)
        ensures
            final(self).framebuffer_resized,
            *final(self) == (VulkanApp { framebuffer_resized: true, ..*old(self) }),
    {
        self.framebuffer_resized = true;
    }

    /// The scissor rectangle: the whole swap chain image.
    pub fn create_scissor(&self) -> (r: Rect2D)
        ensures
            r == (Rect2D { offset: Offset2D { x: 0, y: 0 }, extent: self.swap_chain_extent }),
    {
        Rect2D { offset: Offset2D { x: 0, y: 0 }, extent: self.swap_chain_extent }
    }
}

} // verus!
