//! The frame submission loop, as an explicit state machine. One tick runs
//! check-resize, rebuild (if a resize is pending), acquire, record and
//! submit, in that order; a tick either completes all of them or aborts
//! cleanly before any submission. The caller performs the actual device
//! work for each step and reports its outcome; the engine decides the next
//! step for every possible outcome, and the decisions are verified.

use vstd::prelude::*;
use crate::swapchain::Extent;
use crate::swapchain::SurfaceCaps;
use crate::swapchain::Swapchain;
use crate::swapchain::RebuildReport;
use crate::swapchain::RebuildError;
use crate::targets::FrameTargetSet;
use crate::frame_sync::CompletionToken;
use crate::frame_sync::CommitResult;
use crate::frame_sync::FrameSync;
use crate::frame_sync::SubmitOutcome;
use crate::geometry::StaticResources;
use crate::command::CommandSequence;
use crate::command::single_draw_ops;

verus! {

/// Where the loop stands. `Idle` is between ticks; the `Awaiting` phases
/// stand mid-tick, after the engine has asked the caller to perform a
/// device step and before the caller reported its outcome. `Terminated` is
/// terminal: no work may be submitted after it.
#[derive(Clone, Copy, PartialEq, Eq, Structural, Debug)]
pub enum Phase {
    Idle,
    AwaitingRebuild,
    AwaitingAcquire,
    AwaitingSubmit,
    Terminated,
}

/// The first device step of a tick: rebuild the swapchain at the given
/// extent, or acquire the next presentable image from the current chain.
#[derive(Clone, Copy, PartialEq, Eq, Structural, Debug)]
pub enum TickAction {
    RebuildChain { extent: Extent },
    AcquireImage,
}

/// What the engine decided after a rebuild outcome.
#[derive(Clone, Copy, PartialEq, Eq, Structural, Debug)]
pub enum RebuildStep {
    /// The chain and its frame targets were rebuilt; acquire next.
    Proceed,
    /// The extent is transiently unsupported: this tick is over, retry on
    /// the next one.
    TickAborted,
    /// Fatal device error: the loop is terminated.
    Fatal,
}

/// What the device reported when asked to acquire the next presentable
/// image.
#[derive(Clone, Copy, PartialEq, Eq, Structural, Debug)]
pub enum AcquireReport {
    /// An image is ready to be written. `suboptimal` means it is usable but
    /// no longer ideal for the surface; the engine still presents it and
    /// schedules a rebuild for the next tick.
    Acquired { image_index: usize, suboptimal: bool },
    /// The chain is stale; nothing was acquired.
    OutOfDate,
    /// Any other acquisition failure; not retried.
    DeviceError,
}

/// What the engine decided after an acquisition outcome.
pub enum AcquireStep {
    /// The tick's command sequence is recorded; submit it chained onto the
    /// previous completion token.
    Submit { commands: CommandSequence },
    /// The chain is stale: a rebuild is scheduled and this tick is over,
    /// with nothing recorded and nothing submitted.
    TickAborted,
    /// Fatal device error: the loop is terminated.
    Fatal,
}

/// The engine: the owned state the submission loop mutates, one value,
/// passed by reference into each step. It owns the swapchain model, the
/// frame target set built for it, the completion-token chain, and the
/// static render resources shared by every tick.
pub struct Engine {
    pub swapchain: Swapchain,
    pub targets: FrameTargetSet,
    pub sync: FrameSync,
    pub resources: StaticResources,
    pub resize_needed: bool,
    pub surface_extent: Extent,
    pub phase: Phase,
    pub prev_token: CompletionToken,
}

impl Engine {
    /// A phase in the middle of a tick, between the first device request
    /// and the commit.
    pub open spec fn mid_tick(phase: Phase) -> bool {
        phase == Phase::AwaitingRebuild || phase == Phase::AwaitingAcquire || phase
            == Phase::AwaitingSubmit
    }

    /// The engine's invariant, established at creation and preserved by
    /// every step: the frame target set in use always belongs to the
    /// current swapchain — same generation, same extent, one target per
    /// image — so no tick can ever record against a stale target; a rebuild
    /// is only ever in flight when a resize is pending; and mid-tick the
    /// token taken for chaining is the synchronizer's current one.
    pub open spec fn wf(self) -> bool {
        &&& self.swapchain.wf()
        &&& self.targets.wf()
        &&& self.targets.extent == self.swapchain.extent
        &&& self.targets.generation == self.swapchain.generation
        &&& self.targets.targets.len() == self.swapchain.image_count
        &&& self.sync.wf()
        &&& (self.phase == Phase::AwaitingRebuild ==> self.resize_needed)
        &&& (Self::mid_tick(self.phase) ==> self.prev_token == self.sync.current)
    }

    /// Start the engine: create the swapchain from the surface's
    /// capabilities, build its frame targets, and begin with a trivially
    /// satisfied completion token and no resize pending.
    pub fn new(caps: &SurfaceCaps, resources: StaticResources) -> (e: Engine)
        requires
            caps.min_image_count >= 1,
        ensures
            e.wf(),
            e.phase == Phase::Idle,
            !e.resize_needed,
            e.surface_extent == caps.current_extent,
            e.swapchain.extent == caps.current_extent,
            e.swapchain.image_count == caps.min_image_count,
            e.swapchain.format == caps.first_format,
            e.swapchain.generation@ == 0,
            e.sync.current.serial == 0,
            e.sync.in_flight() == 0,
            e.resources == resources,
    {
        let swapchain = Swapchain::create(caps);
        let targets = FrameTargetSet::build(&swapchain);
        let sync = FrameSync::new();
        let prev_token = sync.current;
        Engine {
            swapchain,
            targets,
            sync,
            resources,
            resize_needed: false,
            surface_extent: caps.current_extent,
            phase: Phase::Idle,
            prev_token,
        }
    }

    /// The window was resized: remember the surface's new pixel size and
    /// schedule a swapchain rebuild for the next tick.
    pub fn handle_resized(&mut self, new_extent: Extent)
        requires
            old(self).wf(),
            old(self).phase == Phase::Idle,
        ensures
            final(self).wf(),
            *final(self) == (Engine {
                resize_needed: true,
                surface_extent: new_extent,
                ..*old(self)
            }),
    {
        self.resize_needed = true;
        self.surface_extent = new_extent;
    }

    /// The window was asked to close: terminate the loop. Normal shutdown;
    /// no work may be submitted afterwards.
    pub fn handle_close_requested(&mut self)
        requires
            old(self).wf(),
        ensures
            final(self).wf(),
            *final(self) == (Engine { phase: Phase::Terminated, ..*old(self) }),
    {
        self.phase = Phase::Terminated;
    }

    /// The engine after `begin_tick`: bookkeeping reclaimed up to what the
    /// device reports finished, the current token taken for chaining, and
    /// the tick headed for a rebuild exactly when a resize is pending.
    pub open spec fn spec_begin_tick(self, completed: u64) -> Engine {
        let sync = self.sync.spec_reclaim(completed);
        Engine {
            swapchain: self.swapchain,
            targets: self.targets,
            sync,
            resources: self.resources,
            resize_needed: self.resize_needed,
            surface_extent: self.surface_extent,
            phase: if self.resize_needed {
                Phase::AwaitingRebuild
            } else {
                Phase::AwaitingAcquire
            },
            prev_token: sync.current,
        }
    }

    /// The engine after a tick aborted cleanly mid-flight: back to `Idle`,
    /// everything else untouched.
    pub open spec fn spec_abort_tick(self) -> Engine {
        Engine {
            swapchain: self.swapchain,
            targets: self.targets,
            sync: self.sync,
            resources: self.resources,
            resize_needed: self.resize_needed,
            surface_extent: self.surface_extent,
            phase: Phase::Idle,
            prev_token: self.prev_token,
        }
    }

    /// Begin a tick on a redraw signal: reclaim bookkeeping for GPU work
    /// that has already finished (the device reports serials up to
    /// `completed` done), take the previous frame's completion token for
    /// chaining, and decide the tick's first device step — a rebuild at the
    /// surface's current size if a resize is pending, otherwise an
    /// acquisition from the current chain.
    pub fn begin_tick(&mut self, completed: u64) -> (a: TickAction)
        requires
            old(self).wf(),
            old(self).phase == Phase::Idle,
        ensures
            final(self).wf(),
            *final(self) == old(self).spec_begin_tick(completed),
            old(self).resize_needed ==> a == (TickAction::RebuildChain {
                extent: old(self).surface_extent,
            }) && final(self).phase == Phase::AwaitingRebuild,
            !old(self).resize_needed ==> a == TickAction::AcquireImage && final(self).phase
                == Phase::AwaitingAcquire,
    {
        let token = self.sync.begin_tick(completed);
        self.prev_token = token;
        if self.resize_needed {
            self.phase = Phase::AwaitingRebuild;
            TickAction::RebuildChain { extent: self.surface_extent }
        } else {
            self.phase = Phase::AwaitingAcquire;
            TickAction::AcquireImage
        }
    }

    /// Absorb the outcome of the requested swapchain rebuild. On success
    /// the new chain replaces the old one and the whole frame target set is
    /// rebuilt for it before anything else happens, the pending resize is
    /// cleared, and the tick proceeds to acquisition. On a transiently
    /// unsupported extent the tick aborts with the engine's state — and the
    /// pending resize — exactly as they were, so the next tick retries. Any
    /// other failure, including a reported chain with no images, terminates
    /// the loop.
    pub fn on_rebuild(&mut self, report: RebuildReport) -> (r: RebuildStep)
        requires
            old(self).wf(),
            old(self).phase == Phase::AwaitingRebuild,
        ensures
            final(self).wf(),
            report matches RebuildReport::Created { image_count } ==> if image_count >= 1 {
                &&& r == RebuildStep::Proceed
                &&& final(self).phase == Phase::AwaitingAcquire
                &&& final(self).swapchain.extent == old(self).surface_extent
                &&& final(self).swapchain.image_count == image_count
                &&& final(self).swapchain.format == old(self).swapchain.format
                &&& final(self).swapchain.generation@ == old(self).swapchain.generation@ + 1
                &&& final(self).targets.extent == final(self).swapchain.extent
                &&& !final(self).resize_needed
                &&& final(self).sync == old(self).sync
                &&& final(self).prev_token == old(self).prev_token
                &&& final(self).resources == old(self).resources
                &&& final(self).surface_extent == old(self).surface_extent
            } else {
                &&& r == RebuildStep::Fatal
                &&& *final(self) == (Engine { phase: Phase::Terminated, ..*old(self) })
            },
            report == RebuildReport::DeviceError ==> r == RebuildStep::Fatal && *final(self)
                == (Engine { phase: Phase::Terminated, ..*old(self) }),
            report == RebuildReport::UnsupportedExtent ==> r == RebuildStep::TickAborted
                && *final(self) == old(self).spec_abort_tick() && final(self).resize_needed,
    {
        let outcome = self.swapchain.rebuild(self.surface_extent, report);
        match outcome {
            Ok(chain) => {
                self.targets = FrameTargetSet::build(&chain);
                self.swapchain = chain;
                self.resize_needed = false;
                self.phase = Phase::AwaitingAcquire;
                RebuildStep::Proceed
            },
            Err(RebuildError::UnsupportedExtent) => {
                self.phase = Phase::Idle;
                RebuildStep::TickAborted
            },
            Err(RebuildError::FatalDeviceError) => {
                self.phase = Phase::Terminated;
                RebuildStep::Fatal
            },
        }
    }

    /// Absorb the outcome of the requested image acquisition. On success
    /// the tick records its single-use command sequence against the frame
    /// target for the acquired index — a suboptimal acquisition still
    /// presents this frame and only schedules a rebuild for the next tick —
    /// and asks the caller to submit it. On a stale chain the tick aborts
    /// before anything is recorded or submitted and a rebuild is scheduled.
    /// Any other failure, including an image index outside the chain,
    /// terminates the loop.
    pub fn on_acquire(&mut self, report: AcquireReport) -> (r: AcquireStep)
        requires
            old(self).wf(),
            old(self).phase == Phase::AwaitingAcquire,
        ensures
            final(self).wf(),
            report matches AcquireReport::Acquired { image_index, suboptimal } ==> if image_index
                < old(self).swapchain.image_count {
                &&& r matches AcquireStep::Submit { commands } && commands.ops@ == single_draw_ops(
                    image_index,
                    old(self).resources.indices.len() as usize,
                    old(self).resources.texture_layers,
                ) && commands.target_index == image_index && commands.target_extent == old(
                    self,
                ).swapchain.extent && commands.generation == old(self).swapchain.generation
                &&& final(self).phase == Phase::AwaitingSubmit
                &&& final(self).resize_needed == (old(self).resize_needed || suboptimal)
                &&& final(self).swapchain == old(self).swapchain
                &&& final(self).targets == old(self).targets
                &&& final(self).sync == old(self).sync
                &&& final(self).prev_token == old(self).prev_token
                &&& final(self).resources == old(self).resources
                &&& final(self).surface_extent == old(self).surface_extent
            } else {
                &&& r == AcquireStep::Fatal
                &&& *final(self) == (Engine { phase: Phase::Terminated, ..*old(self) })
            },
            report == AcquireReport::OutOfDate ==> r == AcquireStep::TickAborted && *final(self)
                == (Engine { resize_needed: true, ..old(self).spec_abort_tick() }),
            report == AcquireReport::DeviceError ==> r == AcquireStep::Fatal && *final(self)
                == (Engine { phase: Phase::Terminated, ..*old(self) }),
    {
        match report {
            AcquireReport::Acquired { image_index, suboptimal } => {
                if image_index < self.targets.targets.len() {
                    if suboptimal {
                        self.resize_needed = true;
                    }
                    let commands = CommandSequence::record(
                        &self.targets,
                        image_index,
                        &self.resources,
                    );
                    self.phase = Phase::AwaitingSubmit;
                    AcquireStep::Submit { commands }
                } else {
                    self.phase = Phase::Terminated;
                    AcquireStep::Fatal
                }
            },
            AcquireReport::OutOfDate => {
                self.resize_needed = true;
                self.phase = Phase::Idle;
                AcquireStep::TickAborted
            },
            AcquireReport::DeviceError => {
                self.phase = Phase::Terminated;
                AcquireStep::Fatal
            },
        }
    }

    /// Absorb the outcome of the submitted, presented and flushed tick. The
    /// commit consumes the token taken at `begin_tick` and produces the
    /// next one, whatever the outcome, so every tick's work is chained
    /// strictly after the previous tick's. A stale presentation schedules a
    /// rebuild; a miscellaneous flush failure costs one frame and rendering
    /// continues; either way the synchronizer reset to a fresh token with
    /// nothing in flight, and the engine returns to `Idle`.
    pub fn on_submit(&mut self, outcome: SubmitOutcome) -> (r: CommitResult)
        requires
            old(self).wf(),
            old(self).phase == Phase::AwaitingSubmit,
            old(self).sync.current.serial < u64::MAX,
        ensures
            final(self).wf(),
            final(self).phase == Phase::Idle,
            final(self).sync == old(self).sync.spec_commit(outcome),
            final(self).sync.current.serial == old(self).sync.current.serial + 1,
            (r == CommitResult::Submitted <==> outcome == SubmitOutcome::Flushed),
            (r == CommitResult::StaleChain <==> outcome == SubmitOutcome::OutOfDate),
            (r == CommitResult::SoftReset <==> outcome == SubmitOutcome::SoftError),
            outcome == SubmitOutcome::Flushed ==> final(self).sync.in_flight()
                == old(self).sync.in_flight() + 1,
            outcome != SubmitOutcome::Flushed ==> final(self).sync.in_flight() == 0,
            final(self).resize_needed == (old(self).resize_needed || outcome
                == SubmitOutcome::OutOfDate),
            final(self).swapchain == old(self).swapchain,
            final(self).targets == old(self).targets,
            final(self).resources == old(self).resources,
            final(self).surface_extent == old(self).surface_extent,
    {
        let token = self.prev_token;
        let r = self.sync.commit(token, outcome);
        match r {
            CommitResult::Submitted => {},
            CommitResult::StaleChain => {
                self.resize_needed = true;
            },
            CommitResult::SoftReset => {},
        }
        self.phase = Phase::Idle;
        r
    }
}

/// No stale-target draws: in every well-formed engine state the frame
/// target set in use belongs to the current swapchain — equal extent, equal
/// generation, one target per presentable image — so whatever sequence of
/// resize events and ticks produced the state, recording always happens
/// against targets matching the swapchain at acquisition time.
pub proof fn lemma_no_stale_targets(e: Engine)
    requires
        e.wf(),
    ensures
        e.targets.extent == e.swapchain.extent,
        e.targets.generation == e.swapchain.generation,
        e.targets.targets.len() == e.swapchain.image_count,
{
}

/// Idempotent retry after a recoverable stale condition: with a resize
/// pending, a tick that begins and is then refused with a transiently
/// unsupported extent leaves the engine exactly as a clean abort — well
/// formed, idle, swapchain and targets untouched, the resize still pending
/// — and the very next tick again begins with a rebuild.
pub proof fn lemma_stale_retry(e: Engine, completed: u64, completed_next: u64)
    requires
        e.wf(),
        e.phase == Phase::Idle,
        e.resize_needed,
    ensures
        ({
            let aborted = e.spec_begin_tick(completed).spec_abort_tick();
            &&& e.spec_begin_tick(completed).phase == Phase::AwaitingRebuild
            &&& aborted.wf()
            &&& aborted.phase == Phase::Idle
            &&& aborted.resize_needed
            &&& aborted.swapchain == e.swapchain
            &&& aborted.targets == e.targets
            &&& aborted.surface_extent == e.surface_extent
            &&& aborted.spec_begin_tick(completed_next).phase == Phase::AwaitingRebuild
        }),
{
}

} // verus!
