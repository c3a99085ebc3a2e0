use vstd::prelude::*;
use crate::error::RenderError;
use crate::renderer::VulkanApp;

verus! {

/// The call did what was asked.
pub const VK_SUCCESS: i32 = 0;

/// The swap chain still works but no longer matches the surface exactly.
pub const VK_SUBOPTIMAL_KHR: i32 = 1000001003;

/// The surface changed so that the swap chain can no longer present to it.
pub const VK_ERROR_OUT_OF_DATE_KHR: i32 = -1000001004;

/// What the frame loop does after a step of drawing a frame.
#[derive(Clone, Copy, Debug, PartialEq, Eq, Structural)]
pub enum FrameAction {
    /// Go on as usual.
    Continue,
    /// Rebuild the swap chain before the next frame.
    RecreateSwapChain,
}

/// The largest number of memory types a device can report.
pub const MAX_MEMORY_TYPES: usize = 32;

/// Whether memory type `i` is allowed by the resource's filter and has every
/// property asked for.
pub open spec fn memory_type_fits(type_filter: u32, properties: u32, flags: Seq<u32>, i: int) -> bool {
    &&& type_filter & (1u32 << (i as u32)) != 0
    &&& flags[i] & properties == properties
}

impl VulkanApp {
    /// What to do once the next image was asked for: render to it where that
    /// worked, even if the swap chain is out of step with the surface; skip
    /// the frame and rebuild the swap chain where it is out of date; fail on
    /// any other result.
    pub fn acquire_outcome(&self, result: i32) -> (r: Result<FrameAction, RenderError>)
        ensures
            result == VK_ERROR_OUT_OF_DATE_KHR ==> r == Ok::<FrameAction, RenderError>(
                FrameAction::RecreateSwapChain,
            ),
            result == VK_SUCCESS || result == VK_SUBOPTIMAL_KHR ==> r == Ok::<
                FrameAction,
                RenderError,
            >(FrameAction::Continue),
            result != VK_ERROR_OUT_OF_DATE_KHR && result != VK_SUCCESS && result
                != VK_SUBOPTIMAL_KHR ==> r == Err::<FrameAction, RenderError>(
                RenderError::AcquireFailed,
            ),
    {
        if result == VK_ERROR_OUT_OF_DATE_KHR {
            Ok(FrameAction::RecreateSwapChain)
        } else if result != VK_SUCCESS && result != VK_SUBOPTIMAL_KHR {
            Err(RenderError::AcquireFailed)
        } else {
            Ok(FrameAction::Continue)
        }
    }

    /// What to do once the image was handed over for presenting: rebuild the
    /// swap chain where it is out of date or out of step with the surface, or
    /// where the window was resized, and clear the resize flag then; else
    /// fail on any result but success.
    pub fn present_outcome(&mut self, result: i32) -> (r: Result<FrameAction, RenderError>)
        ensures
            ({
                let rebuild = result == VK_ERROR_OUT_OF_DATE_KHR || result == VK_SUBOPTIMAL_KHR
                    || old(self).framebuffer_resized;
                &&& rebuild ==> r == Ok::<FrameAction, RenderError>(
                    FrameAction::RecreateSwapChain,
                )
                &&& rebuild ==> *final(self) == (VulkanApp {
                    framebuffer_resized: false,
                    ..*old(self)
                })
                &&& !rebuild && result == VK_SUCCESS ==> r == Ok::<FrameAction, RenderError>(
                    FrameAction::Continue,
                )
                &&& !rebuild && result != VK_SUCCESS ==> r == Err::<FrameAction, RenderError>(
                    RenderError::PresentFailed,
                )
                &&& !rebuild ==> *final(self) == *old(self)
            }),
    {
        if result == VK_ERROR_OUT_OF_DATE_KHR || result == VK_SUBOPTIMAL_KHR
            || self.framebuffer_resized {
            self.framebuffer_resized = false;
            Ok(FrameAction::RecreateSwapChain)
        } else if result != VK_SUCCESS {
            Err(RenderError::PresentFailed)
        } else {
            Ok(FrameAction::Continue)
        }
    }

    /// The first memory type that the resource's `type_filter` allows (bit `i`
    /// for type `i`) and that has all of `properties`, given the property
    /// flags of each of the device's memory types. Fails with
    /// `NoPhysicalDeviceForMemoryType` where no physical device has been picked, and
    /// with `NoSuitableMemoryType` where no type fits.
    pub fn find_memory_type(
        &self,
        type_filter: u32,
        properties: u32,
        memory_type_flags: &Vec<u32>,
    ) -> (r: Result<u32, RenderError>)
        requires
            memory_type_flags@.len() <= MAX_MEMORY_TYPES,
        ensures
            self.physical_device == 0 ==> r == Err::<u32, RenderError>(
                RenderError::NoPhysicalDeviceForMemoryType,
            ),
            self.physical_device != 0 ==> (r is Ok <==> exists|i: int|
                0 <= i < memory_type_flags@.len() && memory_type_fits(
                    type_filter,
                    properties,
                    memory_type_flags@,
                    i,
                )),
            self.physical_device != 0 && r is Err ==> r->Err_0 == RenderError::NoSuitableMemoryType,
            r is Ok ==> r->Ok_0 < memory_type_flags@.len() && memory_type_fits(
                type_filter,
                properties,
                memory_type_flags@,
                r->Ok_0 as int,
            ) && forall|j: int|
                0 <= j < r->Ok_0 ==> !memory_type_fits(
                    type_filter,
                    properties,
                    memory_type_flags@,
                    j,
                ),
    {
        if self.physical_device == 0 {
            return Err(RenderError::NoPhysicalDeviceForMemoryType);
        }
        let mut idx: usize = 0;
        while idx < memory_type_flags.len()
            invariant
                idx <= memory_type_flags@.len() <= MAX_MEMORY_TYPES,
                self.physical_device != 0,
                forall|j: int|
                    0 <= j < idx ==> !memory_type_fits(
                        type_filter,
                        properties,
                        memory_type_flags@,
                        j,
                    ),
            decreases memory_type_flags@.len() - idx,
        {
            let bit: u32 = 1u32 << (idx as u32);
            if (type_filter & bit) != 0 && (memory_type_flags[idx] & properties) == properties {
                assert(memory_type_fits(type_filter, properties, memory_type_flags@, idx as int));
                return Ok(idx as u32);
            }
            idx = idx + 1;
        }
        Err(RenderError::NoSuitableMemoryType)
    }
}

} // verus!
