//! The swapchain model: an ordered chain of presentable images with a pixel
//! format and a 2D extent. The chain is created once at startup from the
//! surface's capabilities and is replaced wholesale on resize or staleness;
//! it is never mutated in place.

use vstd::prelude::*;

verus! {

/// Pixel dimensions of a surface, of a swapchain, or of a render target.
#[derive(Clone, Copy, PartialEq, Eq, Structural, Debug)]
pub struct Extent {
    pub width: u32,
    pub height: u32,
}

/// What the presentation surface reports when queried at startup: the
/// minimum supported image count, the first supported pixel format, and the
/// current pixel size of the surface.
#[derive(Clone, Copy, PartialEq, Eq, Structural, Debug)]
pub struct SurfaceCaps {
    pub min_image_count: usize,
    pub first_format: u32,
    pub current_extent: Extent,
}

/// What the device reported when asked to rebuild the swapchain. The caller
/// performs the device call and hands the outcome to [`Swapchain::rebuild`].
#[derive(Clone, Copy, PartialEq, Eq, Structural, Debug)]
pub enum RebuildReport {
    /// A new chain was created, holding `image_count` presentable images.
    Created { image_count: usize },
    /// The requested extent is transiently unsupported (e.g. mid-resize
    /// drag); the caller must retry on the next tick.
    UnsupportedExtent,
    /// Any other device failure; not retried.
    DeviceError,
}

/// Why a rebuild did not produce a new chain.
#[derive(Clone, Copy, PartialEq, Eq, Structural, Debug)]
pub enum RebuildError {
    /// Recoverable: retry with the surface's size on the next tick.
    UnsupportedExtent,
    /// Fatal: the loop must terminate.
    FatalDeviceError,
}

/// The chain of presentable images. `generation` counts how many rebuilds
/// produced this chain; frame targets carry the generation of the chain they
/// were built for, so a stale target set is distinguishable from a fresh one.
pub struct Swapchain {
    pub extent: Extent,
    pub image_count: usize,
    pub format: u32,
    pub generation: Ghost<int>,
}

impl Swapchain {
    /// A chain must hold at least one presentable image.
    pub open spec fn wf(self) -> bool {
        self.image_count >= 1
    }

    /// Create the chain at startup: image count from the surface's minimum
    /// supported count, format from its first supported format, extent from
    /// its current pixel size.
    pub fn create(caps: &SurfaceCaps) -> (chain: Swapchain)
        requires
            caps.min_image_count >= 1,
        ensures
            chain.wf(),
            chain.extent == caps.current_extent,
            chain.image_count == caps.min_image_count,
            chain.format == caps.first_format,
            chain.generation@ == 0,
    {
        Swapchain {
            extent: caps.current_extent,
            image_count: caps.min_image_count,
            format: caps.first_format,
            generation: Ghost(0),
        }
    }

    /// Replace the chain with one matching `new_extent`, according to what
    /// the device reported. On success the new chain keeps the format fixed
    /// at creation and supersedes this one: every frame target built for
    /// this chain is invalidated (its generation no longer matches).
    /// `UnsupportedExtent` is recoverable; any other failure, including a
    /// reported chain with no images, is fatal.
    pub fn rebuild(&self, new_extent: Extent, report: RebuildReport) -> (r: Result<
        Swapchain,
        RebuildError,
    >)
        ensures
            match report {
                RebuildReport::Created { image_count } => if image_count >= 1 {
                    r matches Ok(chain) && chain.wf() && chain.extent == new_extent
                        && chain.image_count == image_count && chain.format == self.format
                        && chain.generation@ == self.generation@ + 1
                } else {
                    r == Err::<Swapchain, RebuildError>(RebuildError::FatalDeviceError)
                },
                RebuildReport::UnsupportedExtent => r == Err::<Swapchain, RebuildError>(
                    RebuildError::UnsupportedExtent,
                ),
                RebuildReport::DeviceError => r == Err::<Swapchain, RebuildError>(
                    RebuildError::FatalDeviceError,
                ),
            },
    {
        match report {
            RebuildReport::Created { image_count } => {
                if image_count >= 1 {
                    Ok(
                        Swapchain {
                            extent: new_extent,
                            image_count,
                            format: self.format,
                            generation: Ghost(self.generation@ + 1),
                        },
                    )
                } else {
                    Err(RebuildError::FatalDeviceError)
                }
            },
            RebuildReport::UnsupportedExtent => Err(RebuildError::UnsupportedExtent),
            RebuildReport::DeviceError => Err(RebuildError::FatalDeviceError),
        }
    }
}

} // verus!
