use vstd::prelude::*;
use crate::renderer::VulkanApp;

verus! {

/// The objects that belong to one swap chain, handed out to be destroyed.
pub struct SwapChainResources {
    /// Destroyed first.
    pub framebuffers: Vec<u64>,
    /// Destroyed after the framebuffers.
    pub image_views: Vec<u64>,
    /// Destroyed last; `None` where there is no swap chain.
    pub swap_chain: Option<u64>,
}

/// One object to destroy when the renderer shuts down.
#[derive(Clone, Copy, Debug, PartialEq, Eq, Structural)]
pub enum Teardown {
    Buffer(u64),
    Memory(u64),
    Fence(u64),
    Semaphore(u64),
    CommandPool(u64),
    Pipeline(u64),
    PipelineLayout(u64),
    RenderPass(u64),
    Device(u64),
    DebugMessenger(u64),
    Surface(u64),
    Instance(u64),
    Window(u64),
}

/// `t` alone where `handle` names an object, else nothing.
pub open spec fn if_live(handle: u64, t: Teardown) -> Seq<Teardown> {
    if handle != 0 {
        seq![t]
    } else {
        seq![]
    }
}

/// The objects beyond the swap chain to destroy, in this order: vertex buffer
/// and its memory, fence, the two semaphores, command pool, pipeline,
/// pipeline layout, render pass, device, debug messenger (only where
/// validation is on), surface, instance, window. Those never created are left
/// out. Each object goes before every object it was made from.
pub open spec fn teardown_seq(app: VulkanApp, validation_enabled: bool) -> Seq<Teardown> {
    if_live(app.vertex_buffer, Teardown::Buffer(app.vertex_buffer))
        + if_live(app.vertex_buffer_memory, Teardown::Memory(app.vertex_buffer_memory))
        + if_live(app.in_flight_fence, Teardown::Fence(app.in_flight_fence))
        + if_live(app.render_finished_semaphore, Teardown::Semaphore(app.render_finished_semaphore))
        + if_live(app.image_available_semaphore, Teardown::Semaphore(app.image_available_semaphore))
        + if_live(app.command_pool, Teardown::CommandPool(app.command_pool))
        + if_live(app.graphics_pipeline, Teardown::Pipeline(app.graphics_pipeline))
        + if_live(app.pipeline_layout, Teardown::PipelineLayout(app.pipeline_layout))
        + if_live(app.render_pass, Teardown::RenderPass(app.render_pass))
        + if_live(app.device, Teardown::Device(app.device))
        + if_live(
        if validation_enabled {
            app.debug_messenger
        } else {
            0
        },
        Teardown::DebugMessenger(app.debug_messenger),
    ) + if_live(app.surface, Teardown::Surface(app.surface))
        + if_live(app.vk_instance, Teardown::Instance(app.vk_instance))
        + if_live(app.window, Teardown::Window(app.window))
}

fn push_if_live(v: &mut Vec<Teardown>, handle: u64, t: Teardown)
    ensures
        final(v)@ == old(v)@ + if_live(handle, t),
{
    if handle != 0 {
        v.push(t);
    }
    assert(final(v)@ =~= old(v)@ + if_live(handle, t));
}

impl VulkanApp {
    /// Hands out the swap chain's framebuffers, image views and the swap
    /// chain itself to be destroyed, and forgets them: both lists are left
    /// empty and the swap chain handle 0. Everything else is kept, the list of
    /// the swap chain's images included.
    pub fn cleanup_swap_chain(&mut self) -> (r: SwapChainResources)
        ensures
            r.framebuffers@ == old(self).swap_chain_framebuffers@,
            r.image_views@ == old(self).swap_chain_image_views@,
            r.swap_chain == if old(self).swap_chain != 0 {
                Some(old(self).swap_chain)
            } else {
                None
            },
            final(self).swap_chain_framebuffers@.len() == 0,
            final(self).swap_chain_image_views@.len() == 0,
            *final(self) == (VulkanApp {
                swap_chain_framebuffers: final(self).swap_chain_framebuffers,
                swap_chain_image_views: final(self).swap_chain_image_views,
                swap_chain: 0,
                ..*old(self)
            }),
    {
        let framebuffers = self.swap_chain_framebuffers.clone();
        let image_views = self.swap_chain_image_views.clone();
        assert(framebuffers@ =~= old(self).swap_chain_framebuffers@);
        assert(image_views@ =~= old(self).swap_chain_image_views@);
        self.swap_chain_framebuffers = Vec::new();
        self.swap_chain_image_views = Vec::new();
        let swap_chain = if self.swap_chain != 0 {
            Some(self.swap_chain)
        } else {
            None
        };
        self.swap_chain = 0;
        SwapChainResources { framebuffers, image_views, swap_chain }
    }

    /// The objects to destroy at shutdown, after the swap chain's: vertex
    /// buffer and its memory, fence, the render-finished then the
    /// image-available semaphore, command pool, pipeline, pipeline layout,
    /// render pass, device, debug messenger (only with validation), surface,
    /// instance, window. Objects never created are left out. Each object goes
    /// before every object it was made from, though this is not the exact
    /// reverse of the setup order.
    pub fn teardown_order(&self, validation_enabled: bool) -> (r: Vec<Teardown>)
        ensures
            r@ == teardown_seq(*self, validation_enabled),
    {
        let mut r: Vec<Teardown> = Vec::new();
        push_if_live(&mut r, self.vertex_buffer, Teardown::Buffer(self.vertex_buffer));
        push_if_live(&mut r, self.vertex_buffer_memory, Teardown::Memory(self.vertex_buffer_memory));
        push_if_live(&mut r, self.in_flight_fence, Teardown::Fence(self.in_flight_fence));
        push_if_live(
            &mut r,
            self.render_finished_semaphore,
            Teardown::Semaphore(self.render_finished_semaphore),
        );
        push_if_live(
            &mut r,
            self.image_available_semaphore,
            Teardown::Semaphore(self.image_available_semaphore),
        );
        push_if_live(&mut r, self.command_pool, Teardown::CommandPool(self.command_pool));
        push_if_live(&mut r, self.graphics_pipeline, Teardown::Pipeline(self.graphics_pipeline));
        push_if_live(&mut r, self.pipeline_layout, Teardown::PipelineLayout(self.pipeline_layout));
        push_if_live(&mut r, self.render_pass, Teardown::RenderPass(self.render_pass));
        push_if_live(&mut r, self.device, Teardown::Device(self.device));
        let messenger: u64 = if validation_enabled {
            self.debug_messenger
        } else {
            0
        };
        push_if_live(&mut r, messenger, Teardown::DebugMessenger(self.debug_messenger));
        push_if_live(&mut r, self.surface, Teardown::Surface(self.surface));
        push_if_live(&mut r, self.vk_instance, Teardown::Instance(self.vk_instance));
        push_if_live(&mut r, self.window, Teardown::Window(self.window));
        r
    }
}

} // verus!
