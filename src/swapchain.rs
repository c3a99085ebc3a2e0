use vstd::prelude::*;
use crate::error::RenderError;
use crate::queue::{indices_complete, QueueFamilyIndices};
use crate::renderer::VulkanApp;

verus! {

/// The image format the renderer prefers: 8-bit BGRA in sRGB.
pub const FORMAT_B8G8R8A8_SRGB: u32 = 50;

/// The color space the renderer prefers: non-linear sRGB.
pub const COLOR_SPACE_SRGB_NONLINEAR: u32 = 0;

/// First-in first-out presentation, which every device supports.
pub const PRESENT_MODE_FIFO: u32 = 2;

/// Images owned by one queue family at a time.
pub const SHARING_MODE_EXCLUSIVE: u32 = 0;

/// Images shared by the queue families listed with them.
pub const SHARING_MODE_CONCURRENT: u32 = 1;

/// A width and a height, in pixels.
#[derive(Clone, Copy, Debug, PartialEq, Eq, Structural)]
pub struct Extent2D {
    pub width: u32,
    pub height: u32,
}

/// An image format together with its color space.
#[derive(Clone, Copy, Debug, PartialEq, Eq, Structural)]
pub struct SurfaceFormat {
    pub format: u32,
    pub color_space: u32,
}

/// What a surface allows of a swap chain built for it.
#[derive(Clone, Copy, Debug, PartialEq, Eq, Structural)]
pub struct SurfaceCapabilities {
    pub min_image_count: u32,
    /// The largest number of images, or 0 where there is no limit.
    pub max_image_count: u32,
    /// The surface's size, or a width of `u32::MAX` where the swap chain
    /// decides it.
    pub current_extent: Extent2D,
    pub min_image_extent: Extent2D,
    pub max_image_extent: Extent2D,
    pub max_image_array_layers: u32,
    pub supported_transforms: u32,
    pub current_transform: u32,
    pub supported_composite_alpha: u32,
    pub supported_usage_flags: u32,
}

/// What a device offers for presenting to a surface.
pub struct SwapChainSupportDetails {
    pub capabilities: SurfaceCapabilities,
    pub formats: Vec<SurfaceFormat>,
    pub present_modes: Vec<u32>,
}

pub open spec fn zero_extent() -> Extent2D {
    Extent2D { width: 0, height: 0 }
}

pub open spec fn zero_capabilities() -> SurfaceCapabilities {
    SurfaceCapabilities {
        min_image_count: 0,
        max_image_count: 0,
        current_extent: zero_extent(),
        min_image_extent: zero_extent(),
        max_image_extent: zero_extent(),
        max_image_array_layers: 0,
        supported_transforms: 0,
        current_transform: 0,
        supported_composite_alpha: 0,
        supported_usage_flags: 0,
    }
}

impl Default for SwapChainSupportDetails {
    /// Nothing offered: zero capabilities, no format, no present mode.
    fn default() -> (r: Self)
        ensures
            r.capabilities == zero_capabilities(),
            r.formats@.len() == 0,
            r.present_modes@.len() == 0,
    {
        SwapChainSupportDetails {
            capabilities: SurfaceCapabilities {
                min_image_count: 0,
                max_image_count: 0,
                current_extent: Extent2D { width: 0, height: 0 },
                min_image_extent: Extent2D { width: 0, height: 0 },
                max_image_extent: Extent2D { width: 0, height: 0 },
                max_image_array_layers: 0,
                supported_transforms: 0,
                current_transform: 0,
                supported_composite_alpha: 0,
                supported_usage_flags: 0,
            },
            formats: Vec::new(),
            present_modes: Vec::new(),
        }
    }
}

impl SwapChainSupportDetails {
    /// Whether the device offers at least one format and one present mode.
    pub open spec fn adequate(&self) -> bool {
        self.formats@.len() > 0 && self.present_modes@.len() > 0
    }
}

pub open spec fn is_preferred_format(f: SurfaceFormat) -> bool {
    f.format == FORMAT_B8G8R8A8_SRGB && f.color_space == COLOR_SPACE_SRGB_NONLINEAR
}

/// `v` held within `[lo, hi]`.
pub open spec fn clamp_spec(v: u32, lo: u32, hi: u32) -> u32 {
    if v < lo {
        lo
    } else if v > hi {
        hi
    } else {
        v
    }
}

/// The size of the swap chain's images: the surface's own size where it has
/// one, else the framebuffer's size held within the surface's limits.
pub open spec fn swap_extent(caps: SurfaceCapabilities, fb_width: i32, fb_height: i32) -> Extent2D {
    if caps.current_extent.width != u32::MAX {
        caps.current_extent
    } else {
        Extent2D {
            width: clamp_spec(
                fb_width as u32,
                caps.min_image_extent.width,
                caps.max_image_extent.width,
            ),
            height: clamp_spec(
                fb_height as u32,
                caps.min_image_extent.height,
                caps.max_image_extent.height,
            ),
        }
    }
}

/// One more image than the surface's minimum, but no more than its maximum
/// where it has one.
pub open spec fn swap_image_count(caps: SurfaceCapabilities) -> u32 {
    if caps.max_image_count > 0 && caps.min_image_count + 1 > caps.max_image_count {
        caps.max_image_count
    } else {
        (caps.min_image_count + 1) as u32
    }
}

/// Whether `k` is the format index that the swap chain is built with: the
/// first preferred format, else the first format.
pub open spec fn chosen_format_index(fs: Seq<SurfaceFormat>, k: int) -> bool {
    &&& 0 <= k < fs.len()
    &&& (exists|i: int| 0 <= i < fs.len() && #[trigger] is_preferred_format(fs[i])) ==> (
    is_preferred_format(fs[k]) && forall|j: int| 0 <= j < k ==> !#[trigger] is_preferred_format(
        fs[j],
    ))
    &&& !(exists|i: int| 0 <= i < fs.len() && #[trigger] is_preferred_format(fs[i])) ==> k == 0
}

/// How a swap chain is to be built: what the creation call is handed.
pub struct SwapChainPlan {
    pub surface_format: SurfaceFormat,
    pub present_mode: u32,
    pub extent: Extent2D,
    pub image_count: u32,
    pub sharing_mode: u32,
    /// The queue families that share the images; empty for exclusive use.
    pub queue_family_indices: Vec<u32>,
    pub pre_transform: u32,
}

fn clamp_u32(v: u32, lo: u32, hi: u32) -> (r: u32)
    requires
        lo <= hi,
    ensures
        r == clamp_spec(v, lo, hi),
{
    if v < lo {
        lo
    } else if v > hi {
        hi
    } else {
        v
    }
}

impl VulkanApp {
    /// The index of the format to build the swap chain with: the first one in
    /// 8-bit BGRA sRGB with the non-linear sRGB color space, else the first
    /// one; `None` where there is none.
    pub fn choose_swap_surface_format(&self, available_formats: &[SurfaceFormat]) -> (r: Option<
        usize,
    >)
        ensures
            available_formats@.len() == 0 <==> r is None,
            r is Some ==> chosen_format_index(available_formats@, r->0 as int),
    {
        if available_formats.len() == 0 {
            return None;
        }
        let mut idx: usize = 0;
        while idx < available_formats.len()
            invariant
                idx <= available_formats@.len(),
                forall|j: int| 0 <= j < idx ==> !#[trigger] is_preferred_format(
                    available_formats@[j],
                ),
            decreases available_formats@.len() - idx,
        {
            let format = available_formats[idx];
            if format.format == FORMAT_B8G8R8A8_SRGB && format.color_space
                == COLOR_SPACE_SRGB_NONLINEAR {
                assert(is_preferred_format(available_formats@[idx as int]));
                return Some(idx);
            }
            idx = idx + 1;
        }
        Some(0)
    }

    /// The present mode to build the swap chain with: always first-in
    /// first-out, which every device supports, whatever else is offered.
    pub fn choose_swap_present_mode(&self, _available_present_modes: &[u32]) -> (r: u32)
        ensures
            r == PRESENT_MODE_FIFO,
    {
        PRESENT_MODE_FIFO
    }

    /// The size of the swap chain's images, from the surface's capabilities
    /// and the window's framebuffer size (read only where the surface leaves
    /// the size to the swap chain).
    pub fn choose_swap_extent(
        &self,
        capabilities: &SurfaceCapabilities,
        framebuffer_width: i32,
        framebuffer_height: i32,
    ) -> (r: Extent2D)
        requires
            capabilities.current_extent.width == u32::MAX ==> capabilities.min_image_extent.width
                <= capabilities.max_image_extent.width && capabilities.min_image_extent.height
                <= capabilities.max_image_extent.height,
        ensures
            r == swap_extent(*capabilities, framebuffer_width, framebuffer_height),
    {
        if capabilities.current_extent.width != u32::MAX {
            return capabilities.current_extent;
        }
        let width = clamp_u32(
            framebuffer_width as u32,
            capabilities.min_image_extent.width,
            capabilities.max_image_extent.width,
        );
        let height = clamp_u32(
            framebuffer_height as u32,
            capabilities.min_image_extent.height,
            capabilities.max_image_extent.height,
        );
        Extent2D { width, height }
    }
}

impl VulkanApp {
    /// Fails with `SurfaceMissing` where the window surface has not been
    /// created, which asking what a device offers for it needs.
    pub fn check_surface(&self) -> (r: Result<(), RenderError>)
        ensures
            self.surface == 0 <==> r is Err,
            r is Err ==> r->Err_0 == RenderError::SurfaceMissing,
    {
        if self.surface == 0 {
            Err(RenderError::SurfaceMissing)
        } else {
            Ok(())
        }
    }

    /// Whether the image size depends on the window's framebuffer size: only
    /// where the surface leaves the size to the swap chain.
    pub fn extent_needs_framebuffer_size(&self, capabilities: &SurfaceCapabilities) -> (r: bool)
        ensures
            r == (capabilities.current_extent.width == u32::MAX),
    {
        capabilities.current_extent.width == u32::MAX
    }

    /// Decides how to build the swap chain from what the device offers for the
    /// surface, the chosen queue families and the window's framebuffer size:
    /// the chosen format and present mode, the image size, one more image than
    /// the minimum (held to the maximum where there is one), the surface's
    /// current transform, and concurrent sharing between the two families
    /// where they differ, exclusive use where they are one.
    pub fn plan_swap_chain(
        &self,
        support: &SwapChainSupportDetails,
        indices: &QueueFamilyIndices,
        framebuffer_width: i32,
        framebuffer_height: i32,
    ) -> (r: SwapChainPlan)
        requires
            support.formats@.len() > 0,
            indices_complete(*indices),
            support.capabilities.min_image_count < u32::MAX,
            support.capabilities.current_extent.width == u32::MAX
                ==> support.capabilities.min_image_extent.width
                <= support.capabilities.max_image_extent.width
                && support.capabilities.min_image_extent.height
                <= support.capabilities.max_image_extent.height,
        ensures
            exists|k: int|
                chosen_format_index(support.formats@, k) && r.surface_format
                    == support.formats@[k],
            r.present_mode == PRESENT_MODE_FIFO,
            r.extent == swap_extent(support.capabilities, framebuffer_width, framebuffer_height),
            r.image_count == swap_image_count(support.capabilities),
            r.pre_transform == support.capabilities.current_transform,
            indices.graphics_family != indices.present_family ==> r.sharing_mode
                == SHARING_MODE_CONCURRENT && r.queue_family_indices@ == seq![
                indices.graphics_family->0,
                indices.present_family->0,
            ],
            indices.graphics_family == indices.present_family ==> r.sharing_mode
                == SHARING_MODE_EXCLUSIVE && r.queue_family_indices@.len() == 0,
    {
        let idx = self.choose_swap_surface_format(support.formats.as_slice()).unwrap();
        let present_mode = self.choose_swap_present_mode(support.present_modes.as_slice());
        let extent = self.choose_swap_extent(
            &support.capabilities,
            framebuffer_width,
            framebuffer_height,
        );
        let mut image_count: u32 = support.capabilities.min_image_count + 1;
        if support.capabilities.max_image_count > 0 && image_count
            > support.capabilities.max_image_count {
            image_count = support.capabilities.max_image_count;
        }
        let graphics = indices.graphics_family.unwrap();
        let present = indices.present_family.unwrap();
        let mut queue_family_indices: Vec<u32> = Vec::new();
        let sharing_mode: u32;
        if graphics != present {
            sharing_mode = SHARING_MODE_CONCURRENT;
            queue_family_indices.push(graphics);
            queue_family_indices.push(present);
        } else {
            sharing_mode = SHARING_MODE_EXCLUSIVE;
        }
        SwapChainPlan {
            surface_format: support.formats[idx],
            present_mode,
            extent,
            image_count,
            sharing_mode,
            queue_family_indices,
            pre_transform: support.capabilities.current_transform,
        }
    }

    /// Takes in the swap chain just built from `plan`: its handle, its images,
    /// and the format and size they were made with.
    pub fn record_swap_chain(&mut self, swap_chain: u64, images: Vec<u64>, plan: &SwapChainPlan)
        ensures
            *final(self) == (VulkanApp {
                swap_chain,
                swap_chain_images: images,
                swap_chain_image_format: plan.surface_format.format,
                swap_chain_extent: plan.extent,
                ..*old(self)
            }),
    {
        self.swap_chain = swap_chain;
        self.swap_chain_images = images;
        self.swap_chain_image_format = plan.surface_format.format;
        self.swap_chain_extent = plan.extent;
    }
}

} // verus!
