//! Swapchain configuration and recreation.
//!
//! The swapchain, the depth buffer and the ray-tracing output image are
//! resolution-dependent and live and die together.  On a resize (or a stale
//! swapchain reported at present time) they are destroyed in dependency
//! order after a full device idle wait, then rebuilt at the new resolution,
//! and the descriptor binding that references the output image is rewritten
//! in place.  The acceleration structures and the shader binding table are
//! resolution-independent and are never touched here.

use vstd::prelude::*;

verus! {

/// A surface resolution in pixels.
#[derive(Clone, Copy, Debug, PartialEq, Eq, Structural)]
pub struct Extent {
    pub width: u32,
    pub height: u32,
}

/// Picks how many images to ask the swapchain for: one more than the
/// surface's minimum, clamped to its maximum when the surface reports one
/// (a maximum of zero means unbounded).
pub fn choose_image_count(min_image_count: u32, max_image_count: u32) -> (n: u32)
    requires
        min_image_count < u32::MAX,
    ensures
        max_image_count == 0 ==> n == min_image_count + 1,
        max_image_count != 0 ==> n == if min_image_count + 1 > max_image_count {
            max_image_count as int
        } else {
            min_image_count + 1
        },
{
    let desired = min_image_count + 1;
    if max_image_count > 0 && desired > max_image_count {
        max_image_count
    } else {
        desired
    }
}

/// Picks the swapchain extent: the surface's current extent, unless the
/// surface leaves it undetermined (all-ones sentinel width), in which case
/// the window's size is used.
pub fn choose_extent(
    current_width: u32,
    current_height: u32,
    window_width: u32,
    window_height: u32,
) -> (e: Extent)
    ensures
        current_width == u32::MAX ==> e == (Extent { width: window_width, height: window_height }),
        current_width != u32::MAX ==> e == (Extent {
            width: current_width,
            height: current_height,
        }),
{
    if current_width == u32::MAX {
        Extent { width: window_width, height: window_height }
    } else {
        Extent { width: current_width, height: current_height }
    }
}

/// One step of the swapchain recreation protocol, in the order the driver
/// must perform it.
#[derive(Clone, Copy, Debug, PartialEq, Eq, Structural)]
pub enum ResizeStep {
    /// Block until the device is idle; nothing may still use the resources
    /// about to be destroyed.
    WaitDeviceIdle,
    DestroyRtImageView,
    DestroyRtImage,
    FreeRtImageMemory,
    DestroyFramebuffers,
    DestroyRenderPass,
    DestroyPresentImageViews,
    DestroyDepthImage,
    DestroyDepthImageView,
    FreeDepthImageMemory,
    /// Create the new swapchain at the new resolution, chaining the old one
    /// for driver-assisted resource reuse.
    CreateSwapchain { width: u32, height: u32 },
    DestroyOldSwapchain,
    CreatePresentImageViews,
    CreateDepthResources,
    CreateFramebuffers,
    /// Recreate the ray-tracing output image at the new resolution.
    CreateRtImage { width: u32, height: u32 },
    /// Rewrite the descriptor binding that references the output image view.
    RewriteRtImageDescriptor,
}

/// The full recreation sequence for a new resolution.
pub open spec fn spec_recreate_steps(width: u32, height: u32) -> Seq<ResizeStep> {
    seq![
        ResizeStep::WaitDeviceIdle,
        ResizeStep::DestroyRtImageView,
        ResizeStep::DestroyRtImage,
        ResizeStep::FreeRtImageMemory,
        ResizeStep::DestroyFramebuffers,
        ResizeStep::DestroyRenderPass,
        ResizeStep::DestroyPresentImageViews,
        ResizeStep::DestroyDepthImage,
        ResizeStep::DestroyDepthImageView,
        ResizeStep::FreeDepthImageMemory,
        ResizeStep::CreateSwapchain { width, height },
        ResizeStep::DestroyOldSwapchain,
        ResizeStep::CreatePresentImageViews,
        ResizeStep::CreateDepthResources,
        ResizeStep::CreateFramebuffers,
        ResizeStep::CreateRtImage { width, height },
        ResizeStep::RewriteRtImageDescriptor,
    ]
}

/// Emits the recreation protocol for the new resolution: device idle wait
/// first, teardown in dependency order, then the rebuild, with both the
/// swapchain and the ray-tracing output image sized to the same new extent.
pub fn recreate_steps(width: u32, height: u32) -> (steps: Vec<ResizeStep>)
    ensures
        steps@ == spec_recreate_steps(width, height),
        steps@[0] is WaitDeviceIdle,
{
    let mut steps: Vec<ResizeStep> = Vec::new();
    steps.push(ResizeStep::WaitDeviceIdle);
    steps.push(ResizeStep::DestroyRtImageView);
    steps.push(ResizeStep::DestroyRtImage);
    steps.push(ResizeStep::FreeRtImageMemory);
    steps.push(ResizeStep::DestroyFramebuffers);
    steps.push(ResizeStep::DestroyRenderPass);
    steps.push(ResizeStep::DestroyPresentImageViews);
    steps.push(ResizeStep::DestroyDepthImage);
    steps.push(ResizeStep::DestroyDepthImageView);
    steps.push(ResizeStep::FreeDepthImageMemory);
    steps.push(ResizeStep::CreateSwapchain { width, height });
    steps.push(ResizeStep::DestroyOldSwapchain);
    steps.push(ResizeStep::CreatePresentImageViews);
    steps.push(ResizeStep::CreateDepthResources);
    steps.push(ResizeStep::CreateFramebuffers);
    steps.push(ResizeStep::CreateRtImage { width, height });
    steps.push(ResizeStep::RewriteRtImageDescriptor);
    proof {
        assert(steps@ =~= spec_recreate_steps(width, height));
    }
    steps
}

} // verus!
