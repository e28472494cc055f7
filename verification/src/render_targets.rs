//! Render target setup: the single-attachment render pass description and
//! the one-framebuffer-per-image-view plans.

use vstd::prelude::*;
use crate::swapchain::Extent2D;

verus! {

/// What happens to an attachment's contents when a render pass instance
/// begins.
#[derive(Clone, Copy, Debug, PartialEq, Eq, Structural)]
pub enum LoadOp {
    /// Discard the previous contents and replace them with the fixed clear
    /// color.
    Clear,
    DontCare,
}

/// What happens to an attachment's contents when a render pass instance
/// ends.
#[derive(Clone, Copy, Debug, PartialEq, Eq, Structural)]
pub enum StoreOp {
    /// Keep the rendered contents for presentation.
    Store,
    DontCare,
}

/// The image layouts the one attachment moves through.
#[derive(Clone, Copy, Debug, PartialEq, Eq, Structural)]
pub enum ImageLayout {
    /// The initial layout: previous contents are irrelevant.
    Undefined,
    /// The layout the subpass renders in.
    ColorAttachmentOptimal,
    /// The final layout: ready for the presentation engine to read.
    PresentSrc,
}

/// The single color attachment of the render pass.
#[derive(Clone, Copy, Debug, PartialEq, Eq, Structural)]
pub struct AttachmentPlan {
    /// The pixel format, which must match the swapchain's.
    pub format: u32,
    pub sample_count: u32,
    pub load_op: LoadOp,
    pub store_op: StoreOp,
    pub stencil_load_op: LoadOp,
    pub stencil_store_op: StoreOp,
    pub initial_layout: ImageLayout,
    pub final_layout: ImageLayout,
}

/// The render pass description: one color attachment and exactly one
/// subpass consuming it as its sole color target.
#[derive(Clone, Copy, Debug, PartialEq, Eq, Structural)]
pub struct RenderPassPlan {
    pub attachment: AttachmentPlan,
    /// The attachment slot the subpass writes; there is only slot 0.
    pub subpass_color_attachment: u32,
    /// The layout the subpass uses that slot in.
    pub subpass_layout: ImageLayout,
}

/// The render pass for a given swapchain format: a single color attachment
/// in that format, cleared at load and stored at store, entering with
/// undefined contents and leaving present-ready, consumed by exactly one
/// subpass as its sole color target.
pub open spec fn spec_render_pass_plan(swapchain_format: u32) -> RenderPassPlan {
    RenderPassPlan {
        attachment: AttachmentPlan {
            format: swapchain_format,
            sample_count: 1,
            load_op: LoadOp::Clear,
            store_op: StoreOp::Store,
            stencil_load_op: LoadOp::DontCare,
            stencil_store_op: StoreOp::DontCare,
            initial_layout: ImageLayout::Undefined,
            final_layout: ImageLayout::PresentSrc,
        },
        subpass_color_attachment: 0,
        subpass_layout: ImageLayout::ColorAttachmentOptimal,
    }
}

/// Builds the render pass description for the swapchain's format.
pub fn render_pass_plan(swapchain_format: u32) -> (r: RenderPassPlan)
    ensures
        r == spec_render_pass_plan(swapchain_format),
{
    RenderPassPlan {
        attachment: AttachmentPlan {
            format: swapchain_format,
            sample_count: 1,
            load_op: LoadOp::Clear,
            store_op: StoreOp::Store,
            stencil_load_op: LoadOp::DontCare,
            stencil_store_op: StoreOp::DontCare,
            initial_layout: ImageLayout::Undefined,
            final_layout: ImageLayout::PresentSrc,
        },
        subpass_color_attachment: 0,
        subpass_layout: ImageLayout::ColorAttachmentOptimal,
    }
}

/// One framebuffer: bound 1:1 to the image view at `image_view_index` and
/// sized to the swapchain extent, with a single layer.
#[derive(Clone, Copy, Debug, PartialEq, Eq, Structural)]
pub struct FramebufferPlan {
    pub image_view_index: usize,
    pub extent: Extent2D,
    pub layers: u32,
}

/// Plans one framebuffer per image view: the plan at position `i` binds
/// the image view at position `i`, keeping the per-image collections
/// index-aligned, and every framebuffer is sized to the swapchain extent.
pub fn framebuffer_plans(n_image_views: usize, extent: Extent2D) -> (r: Vec<FramebufferPlan>)
    ensures
        r@.len() == n_image_views,
        forall|i: int|
            0 <= i < n_image_views ==> (#[trigger] r@[i]) == (FramebufferPlan {
                image_view_index: i as usize,
                extent,
                layers: 1,
            }),
{
    let mut r: Vec<FramebufferPlan> = Vec::new();
    let mut i: usize = 0;
    while i < n_image_views
        invariant
            i <= n_image_views,
            r@.len() == i,
            forall|j: int|
                0 <= j < i ==> (#[trigger] r@[j]) == (FramebufferPlan {
                    image_view_index: j as usize,
                    extent,
                    layers: 1,
                }),
        decreases n_image_views - i,
    {
        r.push(FramebufferPlan { image_view_index: i, extent, layers: 1 });
        i = i + 1;
    }
    r
}

} // verus!
