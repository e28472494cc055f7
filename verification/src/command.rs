//! Command recording: the command pool configuration, the one-buffer-per-
//! swapchain-image allocation, and the fixed command sequence pre-recorded
//! into each buffer.

use vstd::prelude::*;
use crate::device::QueueFamilyIndices;
use crate::swapchain::Extent2D;

verus! {

/// Configuration of the command pool: it serves the graphics queue family
/// and asks for no creation flags.
#[derive(Clone, Copy, Debug, PartialEq, Eq, Structural)]
pub struct CommandPoolPlan {
    pub queue_family_index: u32,
    pub flags: u32,
}

/// Plans the command pool for the selected queue families.
pub fn command_pool_plan(ix: &QueueFamilyIndices) -> (r: CommandPoolPlan)
    ensures
        r.queue_family_index == ix.graphics,
        r.flags == 0,
{
    CommandPoolPlan { queue_family_index: ix.graphics, flags: 0 }
}

/// Configuration of the command buffer allocation: one primary buffer per
/// framebuffer.
#[derive(Clone, Copy, Debug, PartialEq, Eq, Structural)]
pub struct CommandBufferAllocPlan {
    pub count: u32,
    /// Primary buffers are submitted directly to a queue; this core records
    /// no secondary buffers.
    pub primary: bool,
}

/// Plans the command buffer allocation: exactly one primary buffer per
/// framebuffer, keeping the per-image collections index-aligned.
pub fn command_buffer_alloc_plan(n_framebuffers: usize) -> (r: CommandBufferAllocPlan)
    requires
        n_framebuffers <= u32::MAX,
    ensures
        r.count == n_framebuffers,
        r.primary,
{
    CommandBufferAllocPlan { count: n_framebuffers as u32, primary: true }
}

/// An opaque-black clear color, as 8-bit channels.
#[derive(Clone, Copy, Debug, PartialEq, Eq, Structural)]
pub struct ClearColor {
    pub red: u8,
    pub green: u8,
    pub blue: u8,
    pub alpha: u8,
}

/// The fixed clear color: opaque black.
pub open spec fn spec_clear_black() -> ClearColor {
    ClearColor { red: 0, green: 0, blue: 0, alpha: 255 }
}

/// One recorded command of the fixed per-frame sequence.
#[derive(Clone, Copy, Debug, PartialEq, Eq, Structural)]
pub enum RenderCommand {
    /// Begin the render pass instance on the framebuffer matching the
    /// buffer's image index, covering the whole swapchain extent and
    /// discarding previous contents in favour of the fixed clear color.
    BeginRenderPass { framebuffer_index: usize, render_area: Extent2D, clear: ClearColor },
    /// Bind the one graphics pipeline.
    BindPipeline,
    /// The single draw call: one instance of one triangle.
    Draw { vertex_count: u32, instance_count: u32, first_vertex: u32, first_instance: u32 },
    /// End the render pass instance.
    EndRenderPass,
}

/// The fixed command sequence recorded into the buffer for image
/// `image_index`: begin the render pass on the matching framebuffer, bind
/// the pipeline, draw once, end the pass.
pub open spec fn spec_recording(image_index: int, extent: Extent2D) -> Seq<RenderCommand> {
    seq![
        RenderCommand::BeginRenderPass {
            framebuffer_index: image_index as usize,
            render_area: extent,
            clear: spec_clear_black(),
        },
        RenderCommand::BindPipeline,
        RenderCommand::Draw { vertex_count: 3, instance_count: 1, first_vertex: 0, first_instance: 0 },
        RenderCommand::EndRenderPass,
    ]
}

/// Records the fixed command sequence for one swapchain image.
pub fn record_command_buffer(image_index: usize, extent: Extent2D) -> (r: Vec<RenderCommand>)
    ensures
        r@ == spec_recording(image_index as int, extent),
{
    let mut r: Vec<RenderCommand> = Vec::new();
    r.push(RenderCommand::BeginRenderPass {
        framebuffer_index: image_index,
        render_area: extent,
        clear: ClearColor { red: 0, green: 0, blue: 0, alpha: 255 },
    });
    r.push(RenderCommand::BindPipeline);
    r.push(RenderCommand::Draw {
        vertex_count: 3,
        instance_count: 1,
        first_vertex: 0,
        first_instance: 0,
    });
    r.push(RenderCommand::EndRenderPass);
    proof {
        assert(r@ =~= spec_recording(image_index as int, extent));
    }
    r
}

/// Records one command buffer per swapchain image: the result has exactly
/// one recording per image, and the recording at position `i` drives the
/// framebuffer at position `i`.
pub fn record_all_command_buffers(n_images: usize, extent: Extent2D) -> (r: Vec<
    Vec<RenderCommand>,
>)
    ensures
        r@.len() == n_images,
        forall|i: int| 0 <= i < n_images ==> r@[i]@ == spec_recording(i, extent),
{
    let mut r: Vec<Vec<RenderCommand>> = Vec::new();
    let mut i: usize = 0;
    while i < n_images
        invariant
            i <= n_images,
            r@.len() == i,
            forall|j: int| 0 <= j < i ==> r@[j]@ == spec_recording(j, extent),
        decreases n_images - i,
    {
        r.push(record_command_buffer(i, extent));
        i = i + 1;
    }
    r
}

} // verus!
