//! Recording of the commands that draw one frame.

use vstd::prelude::*;
use crate::chain::{Framebuffer, Viewport};

verus! {

/// One command of a frame.
#[derive(Clone, Copy, Debug, PartialEq, Eq, Structural)]
pub enum RenderStep {
    /// Begin the render pass on the framebuffer of this image, clearing it.
    BeginRenderPass { image_index: u32 },
    SetViewport { viewport: Viewport },
    BindPipeline { pipeline: u64 },
    Draw { vertex_count: u32, instance_count: u32, first_vertex: u32, first_instance: u32 },
    EndRenderPass,
}

/// What a frame draws.
#[derive(Clone, Copy, Debug, PartialEq, Eq, Structural)]
pub struct DrawInputs {
    pub vertex_count: u32,
}

/// The recorded commands of one frame, to be submitted once.
#[derive(Clone, Debug)]
pub struct SubmittableUnit {
    /// The image that the frame is drawn into.
    pub image_index: u32,
    pub steps: Vec<RenderStep>,
}

/// The viewport that covers a framebuffer.
pub open spec fn viewport_of(framebuffer: Framebuffer) -> Viewport {
    Viewport { width: framebuffer.extent.width, height: framebuffer.extent.height }
}

/// The commands of a frame: one render pass on the framebuffer, in which
/// the viewport is set to the framebuffer's extent, the pipeline is bound,
/// and one instance of the vertices is drawn.
pub open spec fn frame_steps(framebuffer: Framebuffer, pipeline: u64, inputs: DrawInputs) -> Seq<
    RenderStep,
> {
    seq![
        RenderStep::BeginRenderPass { image_index: framebuffer.image_index },
        RenderStep::SetViewport { viewport: viewport_of(framebuffer) },
        RenderStep::BindPipeline { pipeline },
        RenderStep::Draw {
            vertex_count: inputs.vertex_count,
            instance_count: 1,
            first_vertex: 0,
            first_instance: 0,
        },
        RenderStep::EndRenderPass,
    ]
}

/// Records one frame against a framebuffer. The viewport is taken from the
/// framebuffer as it is now, so a frame after a rebuild is drawn at the new
/// extent.
pub fn record(framebuffer: &Framebuffer, pipeline: u64, inputs: &DrawInputs) -> (unit:
    SubmittableUnit)
    ensures
        unit.image_index == framebuffer.image_index,
        unit.steps@ == frame_steps(*framebuffer, pipeline, *inputs),
{
    let mut steps: Vec<RenderStep> = Vec::new();
    steps.push(RenderStep::BeginRenderPass { image_index: framebuffer.image_index });
    steps.push(
        RenderStep::SetViewport {
            viewport: Viewport {
                width: framebuffer.extent.width,
                height: framebuffer.extent.height,
            },
        },
    );
    steps.push(RenderStep::BindPipeline { pipeline });
    steps.push(
        RenderStep::Draw {
            vertex_count: inputs.vertex_count,
            instance_count: 1,
            first_vertex: 0,
            first_instance: 0,
        },
    );
    steps.push(RenderStep::EndRenderPass);
    proof {
        assert(steps@ =~= frame_steps(*framebuffer, pipeline, *inputs));
    }
    SubmittableUnit { image_index: framebuffer.image_index, steps }
}

} // verus!
