//! The frame target set: one render target per swapchain image, each bound
//! at the swapchain's extent, plus the viewport the fixed pipeline's
//! dynamic-viewport state uses. The whole set is rebuilt in lockstep with
//! the swapchain and is invalidated together, never partially.

use vstd::prelude::*;
use crate::swapchain::Extent;
use crate::swapchain::Swapchain;

verus! {

/// The viewport recomputed on every rebuild: origin (0,0), size equal to
/// the swapchain's extent.
#[derive(Clone, Copy, PartialEq, Eq, Structural, Debug)]
pub struct Viewport {
    pub origin_x: u32,
    pub origin_y: u32,
    pub width: u32,
    pub height: u32,
}

/// One render target: the binding of one swapchain image (by its index in
/// the chain) to the fixed render pass, at the chain's extent. It carries
/// the generation of the chain it was built for; a successful rebuild
/// invalidates it by advancing the chain's generation past it.
pub struct FrameTarget {
    pub image_index: usize,
    pub extent: Extent,
    pub generation: Ghost<int>,
}

/// The set of render targets for one swapchain, with the viewport derived
/// from the same extent.
pub struct FrameTargetSet {
    pub targets: Vec<FrameTarget>,
    pub viewport: Viewport,
    pub extent: Extent,
    pub generation: Ghost<int>,
}

impl FrameTargetSet {
    /// Every target wraps its own image index at the set's extent and
    /// generation, and the viewport spans exactly the extent from (0,0).
    pub open spec fn wf(self) -> bool {
        &&& self.targets.len() >= 1
        &&& forall|i: int|
            0 <= i < self.targets.len() ==> {
                &&& (#[trigger] self.targets[i]).image_index == i
                &&& self.targets[i].extent == self.extent
                &&& self.targets[i].generation == self.generation
            }
        &&& self.viewport == (Viewport {
            origin_x: 0,
            origin_y: 0,
            width: self.extent.width,
            height: self.extent.height,
        })
    }

    /// Build the set for `chain`: one target per presentable image, in
    /// image order, each at the chain's extent, and the viewport recomputed
    /// from the same extent. A pure function of the chain; called exactly
    /// once per successful rebuild, before the next acquisition.
    pub fn build(chain: &Swapchain) -> (s: FrameTargetSet)
        requires
            chain.wf(),
        ensures
            s.wf(),
            s.extent == chain.extent,
            s.generation == chain.generation,
            s.targets.len() == chain.image_count,
    {
        let mut targets: Vec<FrameTarget> = Vec::new();
        let mut i: usize = 0;
        while i < chain.image_count
            invariant
                i <= chain.image_count,
                targets.len() == i,
                forall|j: int|
                    0 <= j < i ==> {
                        &&& (#[trigger] targets[j]).image_index == j
                        &&& targets[j].extent == chain.extent
                        &&& targets[j].generation == chain.generation
                    },
            decreases chain.image_count - i,
        {
            targets.push(
                FrameTarget { image_index: i, extent: chain.extent, generation: chain.generation },
            );
            i = i + 1;
        }
        FrameTargetSet {
            targets,
            viewport: Viewport {
                origin_x: 0,
                origin_y: 0,
                width: chain.extent.width,
                height: chain.extent.height,
            },
            extent: chain.extent,
            generation: chain.generation,
        }
    }
}

} // verus!
