use frame_engine::command::{ClearColor, GpuOp};
use frame_engine::engine::{
    AcquireReport, AcquireStep, Engine, Phase, RebuildStep, TickAction,
};
use frame_engine::frame_sync::{CommitResult, SubmitOutcome};
use frame_engine::geometry::{Rect, StaticResources};
use frame_engine::swapchain::{Extent, RebuildReport, SurfaceCaps};

fn three_rect_scene() -> StaticResources {
    let rects = vec![
        Rect::new(-80, -80, 20, 20, 0),
        Rect::new(-40, -80, 20, 20, 1),
        Rect::new(0, -80, 20, 20, 2),
    ];
    StaticResources::build(&rects, 3)
}

fn engine() -> Engine {
    let caps = SurfaceCaps {
        min_image_count: 3,
        first_format: 44,
        current_extent: Extent { width: 800, height: 600 },
    };
    Engine::new(&caps, three_rect_scene())
}

/// Run one successful tick and return the serial of the token it produced.
fn successful_tick(e: &mut Engine, image_index: usize) -> u64 {
    let completed = e.sync.current.serial;
    match e.begin_tick(completed) {
        TickAction::AcquireImage => {}
        TickAction::RebuildChain { .. } => panic!("no resize was pending"),
    }
    let step = e.on_acquire(AcquireReport::Acquired { image_index, suboptimal: false });
    assert!(matches!(step, AcquireStep::Submit { .. }));
    let r = e.on_submit(SubmitOutcome::Flushed);
    assert_eq!(r, CommitResult::Submitted);
    e.sync.current.serial
}

#[test]
fn recorded_sequence_is_one_pass_with_one_draw_of_the_whole_scene() {
    let mut e = engine();
    assert_eq!(e.begin_tick(0), TickAction::AcquireImage);
    let step = e.on_acquire(AcquireReport::Acquired { image_index: 1, suboptimal: false });
    let commands = match step {
        AcquireStep::Submit { commands } => commands,
        _ => panic!("expected a recorded command sequence"),
    };
    // Three rectangles, 6 indices each: one indexed draw of 18 indices
    // against the single descriptor set of 3 texture layers.
    let white = ClearColor { red: 255, green: 255, blue: 255, alpha: 255 };
    assert_eq!(commands.ops.len(), 3);
    assert_eq!(
        commands.ops[0],
        GpuOp::BeginPass { target_index: 1, clear: white }
    );
    assert_eq!(
        commands.ops[1],
        GpuOp::DrawIndexed { index_count: 18, descriptor_layers: 3 }
    );
    assert_eq!(commands.ops[2], GpuOp::EndPass);
    let draws = commands
        .ops
        .iter()
        .filter(|op| matches!(op, GpuOp::DrawIndexed { .. }))
        .count();
    assert_eq!(draws, 1);
    assert_eq!(commands.target_extent, Extent { width: 800, height: 600 });
}

#[test]
fn resize_causes_one_rebuild_before_the_next_acquire() {
    let mut e = engine();
    e.handle_resized(Extent { width: 1024, height: 768 });
    // The tick after a resize asks for a rebuild, not an acquisition.
    let action = e.begin_tick(0);
    assert_eq!(
        action,
        TickAction::RebuildChain { extent: Extent { width: 1024, height: 768 } }
    );
    let step = e.on_rebuild(RebuildReport::Created { image_count: 3 });
    assert_eq!(step, RebuildStep::Proceed);
    // Exactly one rebuild: the pending resize is cleared, the tick goes on
    // to acquisition, and the next tick acquires directly.
    assert!(!e.resize_needed);
    assert_eq!(e.phase, Phase::AwaitingAcquire);
    let step = e.on_acquire(AcquireReport::Acquired { image_index: 0, suboptimal: false });
    assert!(matches!(step, AcquireStep::Submit { .. }));
    e.on_submit(SubmitOutcome::Flushed);
    assert_eq!(e.begin_tick(0), TickAction::AcquireImage);
}

#[test]
fn draws_after_resize_use_the_new_extent() {
    let mut e = engine();
    e.handle_resized(Extent { width: 1024, height: 768 });
    e.begin_tick(0);
    e.on_rebuild(RebuildReport::Created { image_count: 3 });
    let step = e.on_acquire(AcquireReport::Acquired { image_index: 2, suboptimal: false });
    let commands = match step {
        AcquireStep::Submit { commands } => commands,
        _ => panic!("expected a recorded command sequence"),
    };
    // The target set in use matches the swapchain's extent at acquisition
    // time: no stale-target draws.
    assert_eq!(commands.target_extent, Extent { width: 1024, height: 768 });
    assert_eq!(commands.target_extent, e.swapchain.extent);
}

#[test]
fn out_of_date_acquire_aborts_tick_without_record_or_submit() {
    let mut e = engine();
    let serial_before = e.sync.current.serial;
    assert_eq!(e.begin_tick(0), TickAction::AcquireImage);
    let step = e.on_acquire(AcquireReport::OutOfDate);
    assert!(matches!(step, AcquireStep::TickAborted));
    // Nothing was recorded or submitted: the token chain is untouched and
    // the tick is over, with a rebuild scheduled.
    assert_eq!(e.sync.current.serial, serial_before);
    assert_eq!(e.phase, Phase::Idle);
    assert!(e.resize_needed);
}

#[test]
fn unsupported_extent_aborts_and_the_next_tick_retries() {
    let mut e = engine();
    e.handle_resized(Extent { width: 13, height: 1 });
    let action = e.begin_tick(0);
    assert_eq!(
        action,
        TickAction::RebuildChain { extent: Extent { width: 13, height: 1 } }
    );
    let step = e.on_rebuild(RebuildReport::UnsupportedExtent);
    assert_eq!(step, RebuildStep::TickAborted);
    // Clean abort: idle again, chain untouched, resize still pending.
    assert_eq!(e.phase, Phase::Idle);
    assert!(e.resize_needed);
    assert_eq!(e.swapchain.extent, Extent { width: 800, height: 600 });
    // The very next tick retries the rebuild, and may succeed.
    let action = e.begin_tick(0);
    assert_eq!(
        action,
        TickAction::RebuildChain { extent: Extent { width: 13, height: 1 } }
    );
    let step = e.on_rebuild(RebuildReport::Created { image_count: 3 });
    assert_eq!(step, RebuildStep::Proceed);
    assert_eq!(e.swapchain.extent, Extent { width: 13, height: 1 });
}

#[test]
fn suboptimal_acquire_presents_now_and_rebuilds_next_tick() {
    let mut e = engine();
    e.begin_tick(0);
    let step = e.on_acquire(AcquireReport::Acquired { image_index: 0, suboptimal: true });
    // The frame is still presented...
    assert!(matches!(step, AcquireStep::Submit { .. }));
    assert_eq!(e.on_submit(SubmitOutcome::Flushed), CommitResult::Submitted);
    // ...and the rebuild happens on the next tick.
    assert!(e.resize_needed);
    assert_eq!(
        e.begin_tick(1),
        TickAction::RebuildChain { extent: Extent { width: 800, height: 600 } }
    );
}

#[test]
fn stale_presentation_schedules_rebuild_and_drops_the_frame() {
    let mut e = engine();
    e.begin_tick(0);
    e.on_acquire(AcquireReport::Acquired { image_index: 0, suboptimal: false });
    let r = e.on_submit(SubmitOutcome::OutOfDate);
    assert_eq!(r, CommitResult::StaleChain);
    assert!(e.resize_needed);
    // Fresh token, nothing in flight.
    assert_eq!(e.sync.current.serial, 1);
    assert_eq!(e.sync.reclaimed, 1);
}

#[test]
fn soft_flush_error_drops_one_frame_and_rendering_continues() {
    let mut e = engine();
    e.begin_tick(0);
    e.on_acquire(AcquireReport::Acquired { image_index: 0, suboptimal: false });
    let r = e.on_submit(SubmitOutcome::SoftError);
    assert_eq!(r, CommitResult::SoftReset);
    assert!(!e.resize_needed);
    assert_eq!(e.phase, Phase::Idle);
    // The next tick proceeds as usual.
    successful_tick(&mut e, 0);
}

#[test]
fn close_request_terminates_the_loop() {
    let mut e = engine();
    e.handle_close_requested();
    assert_eq!(e.phase, Phase::Terminated);
}

#[test]
fn rebuild_device_error_terminates_the_loop() {
    let mut e = engine();
    e.handle_resized(Extent { width: 1024, height: 768 });
    e.begin_tick(0);
    let step = e.on_rebuild(RebuildReport::DeviceError);
    assert_eq!(step, RebuildStep::Fatal);
    assert_eq!(e.phase, Phase::Terminated);
}

#[test]
fn acquire_device_error_terminates_the_loop() {
    let mut e = engine();
    e.begin_tick(0);
    let step = e.on_acquire(AcquireReport::DeviceError);
    assert!(matches!(step, AcquireStep::Fatal));
    assert_eq!(e.phase, Phase::Terminated);
}

#[test]
fn acquired_index_outside_the_chain_terminates_the_loop() {
    let mut e = engine();
    e.begin_tick(0);
    let step = e.on_acquire(AcquireReport::Acquired { image_index: 3, suboptimal: false });
    assert!(matches!(step, AcquireStep::Fatal));
    assert_eq!(e.phase, Phase::Terminated);
}

#[test]
fn hundred_ticks_yield_hundred_ordered_tokens_and_no_leaks() {
    let mut e = engine();
    let mut serials: Vec<u64> = Vec::new();
    for tick in 0..100usize {
        let serial = successful_tick(&mut e, tick % 3);
        serials.push(serial);
    }
    // Exactly 100 tokens, strictly ordered and therefore distinct.
    assert_eq!(serials.len(), 100);
    for w in serials.windows(2) {
        assert!(w[0] < w[1]);
    }
    assert_eq!(serials[0], 1);
    assert_eq!(serials[99], 100);
    // Every submitted command sequence is reclaimed once the device reports
    // it finished: nothing is leaked.
    e.begin_tick(e.sync.current.serial);
    assert_eq!(e.sync.reclaimed, 100);
    assert_eq!(e.sync.current.serial, 100);
}
