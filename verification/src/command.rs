//! The command sequence: the ordered, single-use list of GPU operations a
//! tick records against the acquired frame target — begin the fixed render
//! pass with an opaque-white clear, issue one indexed draw from the static
//! resources, end the pass. Built fresh every tick, immutable once
//! submitted, discarded after completion.

use vstd::prelude::*;
use crate::swapchain::Extent;
use crate::targets::FrameTargetSet;
use crate::geometry::StaticResources;

verus! {

/// A clear color, one byte per channel.
#[derive(Clone, Copy, PartialEq, Eq, Structural, Debug)]
pub struct ClearColor {
    pub red: u8,
    pub green: u8,
    pub blue: u8,
    pub alpha: u8,
}

/// The fixed clear color of the render pass.
pub open spec fn opaque_white() -> ClearColor {
    ClearColor { red: 255, green: 255, blue: 255, alpha: 255 }
}

/// One recorded GPU operation.
#[derive(Clone, Copy, PartialEq, Eq, Structural, Debug)]
pub enum GpuOp {
    /// Begin the fixed render pass against the frame target for
    /// `target_index`, clearing it to `clear`.
    BeginPass { target_index: usize, clear: ClearColor },
    /// One indexed draw: `index_count` indices through the static pipeline,
    /// vertex buffer and index buffer, with the single descriptor set of
    /// `descriptor_layers` texture layers bound.
    DrawIndexed { index_count: usize, descriptor_layers: usize },
    /// End the render pass.
    EndPass,
}

/// The operations a tick records: exactly one pass holding exactly one
/// indexed draw.
pub open spec fn single_draw_ops(
    target_index: usize,
    index_count: usize,
    descriptor_layers: usize,
) -> Seq<GpuOp> {
    seq![
        GpuOp::BeginPass { target_index, clear: opaque_white() },
        GpuOp::DrawIndexed { index_count, descriptor_layers },
        GpuOp::EndPass,
    ]
}

/// A single-use command sequence, bound to the frame target it was recorded
/// against: it carries that target's extent and the generation of the
/// swapchain the target belongs to, so a sequence recorded against a stale
/// target set is distinguishable.
pub struct CommandSequence {
    pub ops: Vec<GpuOp>,
    pub target_index: usize,
    pub target_extent: Extent,
    pub generation: Ghost<int>,
}

impl CommandSequence {
    /// Record the tick's command sequence against the frame target for the
    /// acquired image: begin the fixed pass with an opaque-white clear, draw
    /// every index of the static scene with its descriptor set bound, end
    /// the pass.
    pub fn record(targets: &FrameTargetSet, image_index: usize, resources: &StaticResources) -> (c:
        CommandSequence)
        requires
            targets.wf(),
            image_index < targets.targets.len(),
        ensures
            c.ops@ == single_draw_ops(
                image_index,
                resources.indices.len() as usize,
                resources.texture_layers,
            ),
            c.target_index == image_index,
            c.target_extent == targets.extent,
            c.generation == targets.generation,
    {
        let mut ops: Vec<GpuOp> = Vec::new();
        ops.push(GpuOp::BeginPass { target_index: image_index, clear: ClearColor {
            red: 255,
            green: 255,
            blue: 255,
            alpha: 255,
        } });
        ops.push(GpuOp::DrawIndexed {
            index_count: resources.indices.len(),
            descriptor_layers: resources.texture_layers,
        });
        ops.push(GpuOp::EndPass);
        proof {
            assert(ops@ =~= single_draw_ops(
                image_index,
                resources.indices.len() as usize,
                resources.texture_layers,
            ));
        }
        CommandSequence {
            ops,
            target_index: image_index,
            target_extent: targets.extent,
            generation: targets.generation,
        }
    }
}

} // verus!
