use frame_sync::frame::{record_commands, ClearColor, Command, FrameError, PipelineStage, Semaphore};
use frame_sync::render_loop::{
    clear_screen, next_loop_action, render_update, LocalState, LoopAction, LoopEvent, LoopState,
};
use frame_sync::renderer::{
    AcquireOutcome, FenceState, FrameEvent, FrameStep, GfxState, Phase, PresentOutcome, Submission,
    FENCE_TIMEOUT_NS,
};

fn color(r: f32, g: f32, b: f32, a: f32) -> ClearColor {
    ClearColor::from_bits(r.to_bits(), g.to_bits(), b.to_bits(), a.to_bits())
}

/// Runs one frame in which every step succeeds, and returns every step the
/// renderer asked for.
fn successful_frame(gfx: &mut GfxState, c: ClearColor, image: u32) -> Vec<FrameStep> {
    let mut steps = vec![gfx.draw_clear_frame(c)];
    let events = [
        FrameEvent::Acquire(AcquireOutcome::Image(image)),
        FrameEvent::FenceWait(true),
        FrameEvent::FenceReset(true),
        FrameEvent::Recorded,
        FrameEvent::Submit(true),
        FrameEvent::Present(PresentOutcome::Presented),
    ];
    for e in events {
        assert!(gfx.accepts(e));
        steps.push(gfx.on_event(e));
    }
    steps
}

fn slot_of(step: &FrameStep) -> usize {
    match step {
        FrameStep::Acquire { signal: Semaphore::ImageAvailable(s), .. } => *s,
        _ => panic!("not an acquisition: {:?}", step),
    }
}

#[test]
fn new_renderer_starts_idle_with_signaled_fences() {
    let gfx = GfxState::new(3, 4, 1000);
    assert_eq!(gfx.frames_in_flight(), 3);
    assert_eq!(gfx.current_frame_slot(), 0);
    assert_eq!(gfx.image_count(), 4);
    assert_eq!(gfx.phase(), Phase::Idle);
    for s in 0..3 {
        assert_eq!(gfx.fence_state(s), FenceState::Signaled);
    }
}

#[test]
fn one_successful_frame_follows_the_protocol() {
    let mut gfx = GfxState::new(2, 3, 77);
    let c = color(0.25, 0.5, 0.75, 1.0);
    let steps = successful_frame(&mut gfx, c, 2);
    assert_eq!(
        steps,
        vec![
            FrameStep::Acquire { signal: Semaphore::ImageAvailable(0), timeout_ns: 77 },
            FrameStep::WaitFence { slot: 0, timeout_ns: FENCE_TIMEOUT_NS },
            FrameStep::ResetFence { slot: 0 },
            FrameStep::Record { slot: 0, framebuffer: 2, color: c },
            FrameStep::Submit(Submission {
                command_buffer: 0,
                wait_semaphore: Semaphore::ImageAvailable(0),
                wait_stage: PipelineStage::ColorAttachmentOutput,
                signal_semaphore: Semaphore::RenderFinished(0),
                fence: 0,
            }),
            FrameStep::Present { image: 2, wait: Semaphore::RenderFinished(0) },
            FrameStep::Finished(Ok(())),
        ]
    );
    assert_eq!(gfx.fence_state(0), FenceState::Pending);
    assert_eq!(gfx.fence_state(1), FenceState::Signaled);
    assert_eq!(gfx.current_frame_slot(), 1);
    assert_eq!(gfx.phase(), Phase::Idle);
}

#[test]
fn two_slots_five_frames_rotate_and_wait_before_reuse() {
    let mut gfx = GfxState::new(2, 3, 1000);
    let c = color(0.0, 0.0, 1.0, 1.0);
    let mut slots = Vec::new();
    for frame in 0..5u32 {
        let steps = successful_frame(&mut gfx, c, frame % 3);
        let slot = slot_of(&steps[0]);
        slots.push(slot);
        let wait = steps.iter().position(|s| *s == FrameStep::WaitFence { slot, timeout_ns: FENCE_TIMEOUT_NS });
        let record = steps.iter().position(|s| matches!(s, FrameStep::Record { slot: k, .. } if *k == slot));
        assert!(wait.unwrap() < record.unwrap());
        let waits = steps.iter().filter(|s| matches!(s, FrameStep::WaitFence { .. })).count();
        assert_eq!(waits, 1);
    }
    assert_eq!(slots, vec![0, 1, 0, 1, 0]);
}

#[test]
fn every_slot_waits_once_per_reuse_over_many_frames() {
    let mut gfx = GfxState::new(3, 3, 1000);
    let c = color(0.1, 0.2, 0.3, 1.0);
    let mut waits_per_slot = [0usize; 3];
    let mut records_per_slot = [0usize; 3];
    for frame in 0..9u32 {
        for step in successful_frame(&mut gfx, c, frame % 3) {
            match step {
                FrameStep::WaitFence { slot, .. } => waits_per_slot[slot] += 1,
                FrameStep::Record { slot, .. } => {
                    assert_eq!(waits_per_slot[slot], records_per_slot[slot] + 1);
                    records_per_slot[slot] += 1;
                }
                _ => {}
            }
        }
    }
    assert_eq!(waits_per_slot, [3, 3, 3]);
    assert_eq!(records_per_slot, [3, 3, 3]);
}

#[test]
fn slot_rotation_ignores_image_indices() {
    let mut gfx = GfxState::new(3, 4, 1000);
    let c = color(1.0, 1.0, 1.0, 1.0);
    let images = [3u32, 3, 0, 2, 2, 2, 1];
    let mut slots = Vec::new();
    for image in images {
        let steps = successful_frame(&mut gfx, c, image);
        slots.push(slot_of(&steps[0]));
        assert!(steps.contains(&FrameStep::Present { image, wait: Semaphore::RenderFinished(slot_of(&steps[0])) }));
    }
    assert_eq!(slots, vec![0, 1, 2, 0, 1, 2, 0]);
}

#[test]
fn clear_color_is_the_only_recorded_clear_value() {
    let red = color(1.0, 0.0, 0.0, 1.0);
    assert_eq!(red, ClearColor { red: 0x3f80_0000, green: 0, blue: 0, alpha: 0x3f80_0000 });
    let cmds = record_commands(1, red);
    assert_eq!(
        cmds,
        vec![
            Command::BeginRecording,
            Command::BeginRenderPass { framebuffer: 1, clear_value: red },
            Command::EndRenderPass,
            Command::FinishRecording,
        ]
    );
    let passes: Vec<&Command> = cmds.iter().filter(|c| matches!(c, Command::BeginRenderPass { .. })).collect();
    assert_eq!(passes.len(), 1);

    let mut gfx = GfxState::new(2, 2, 1000);
    successful_frame(&mut gfx, color(0.0, 1.0, 0.0, 1.0), 0);
    let steps = successful_frame(&mut gfx, red, 1);
    assert!(steps.contains(&FrameStep::Record { slot: 1, framebuffer: 1, color: red }));
}

#[test]
fn stale_acquire_on_third_frame_rebuilds_and_keeps_rotation() {
    for n in [2usize, 3, 4] {
        let mut gfx = GfxState::new(n, 3, 1000);
        let locals = LocalState::new(color(0.5, 0.5, 0.5, 1.0));
        let mut state = LoopState::AwaitingInput;
        let mut frame = 0;
        let mut rebuilds = 0;
        while frame < 3 {
            let (s, action) = next_loop_action(state, LoopEvent::Input { exit_requested: false });
            assert_eq!(action, LoopAction::RenderFrame);
            state = s;
            frame += 1;
            let first = render_update(&mut gfx, &locals);
            assert_eq!(slot_of(&first), (frame - 1) % n);
            let outcome = if frame == 3 {
                match gfx.on_event(FrameEvent::Acquire(AcquireOutcome::Stale)) {
                    FrameStep::Finished(r) => r,
                    other => panic!("unexpected step {:?}", other),
                }
            } else {
                for e in [
                    FrameEvent::Acquire(AcquireOutcome::Image(0)),
                    FrameEvent::FenceWait(true),
                    FrameEvent::FenceReset(true),
                    FrameEvent::Recorded,
                    FrameEvent::Submit(true),
                ] {
                    gfx.on_event(e);
                }
                match gfx.on_event(FrameEvent::Present(PresentOutcome::Presented)) {
                    FrameStep::Finished(r) => r,
                    other => panic!("unexpected step {:?}", other),
                }
            };
            let (s, action) = next_loop_action(state, LoopEvent::FrameFinished(outcome));
            state = s;
            if action == LoopAction::RebuildSwapchain {
                rebuilds += 1;
                gfx.rebuild(5);
                let (s, action) = next_loop_action(state, LoopEvent::Rebuilt);
                assert_eq!(action, LoopAction::PollInput);
                state = s;
            } else {
                assert_eq!(action, LoopAction::PollInput);
            }
        }
        assert_eq!(rebuilds, 1);
        assert_eq!(gfx.image_count(), 5);
        assert_eq!(gfx.current_frame_slot(), 3 % n);
        assert_eq!(state, LoopState::AwaitingInput);
        let next = clear_screen(&mut gfx, &locals);
        assert_eq!(slot_of(&next), 3 % n);
    }
}

#[test]
fn stale_acquire_advances_to_next_slot() {
    let mut gfx = GfxState::new(3, 3, 1000);
    let c = color(0.0, 0.0, 0.0, 1.0);
    successful_frame(&mut gfx, c, 0);
    assert_eq!(slot_of(&gfx.draw_clear_frame(c)), 1);
    assert_eq!(
        gfx.on_event(FrameEvent::Acquire(AcquireOutcome::Stale)),
        FrameStep::Finished(Err(FrameError::SwapchainStale))
    );
    assert_eq!(gfx.fence_state(1), FenceState::Signaled);
    assert_eq!(slot_of(&gfx.draw_clear_frame(c)), 2);
}

#[test]
fn fence_timeout_fails_the_frame_and_halts_the_loop() {
    let mut gfx = GfxState::new(2, 2, 1000);
    let c = color(0.3, 0.3, 0.3, 1.0);
    let mut steps = vec![gfx.draw_clear_frame(c)];
    steps.push(gfx.on_event(FrameEvent::Acquire(AcquireOutcome::Image(1))));
    assert_eq!(steps[1], FrameStep::WaitFence { slot: 0, timeout_ns: FENCE_TIMEOUT_NS });
    let end = gfx.on_event(FrameEvent::FenceWait(false));
    assert_eq!(end, FrameStep::Finished(Err(FrameError::FenceWaitFailed)));
    assert!(!steps.iter().any(|s| matches!(s, FrameStep::Submit(_) | FrameStep::Record { .. })));
    assert_eq!(gfx.phase(), Phase::Idle);

    let (state, action) = next_loop_action(
        LoopState::RenderingFrame,
        LoopEvent::FrameFinished(Err(FrameError::FenceWaitFailed)),
    );
    assert_eq!(state, LoopState::Stopped);
    assert_eq!(action, LoopAction::Shutdown(Err(FrameError::FenceWaitFailed)));
    assert!(!frame_sync::render_loop::loop_accepts_event(state, LoopEvent::Input { exit_requested: false }));
    assert!(!frame_sync::render_loop::loop_accepts_event(state, LoopEvent::Rebuilt));
}

#[test]
fn each_error_kind_is_reported() {
    let c = color(0.0, 0.0, 0.0, 0.0);
    let upto = |gfx: &mut GfxState, n: usize| {
        gfx.draw_clear_frame(c);
        let events = [
            FrameEvent::Acquire(AcquireOutcome::Image(0)),
            FrameEvent::FenceWait(true),
            FrameEvent::FenceReset(true),
            FrameEvent::Recorded,
            FrameEvent::Submit(true),
        ];
        for e in events.iter().take(n) {
            gfx.on_event(*e);
        }
    };
    let cases = [
        (0, FrameEvent::Acquire(AcquireOutcome::Failed), FrameError::AcquireFailed),
        (0, FrameEvent::Acquire(AcquireOutcome::Image(2)), FrameError::AcquireFailed),
        (0, FrameEvent::Acquire(AcquireOutcome::Timeout), FrameError::AcquireTimeout),
        (0, FrameEvent::Acquire(AcquireOutcome::Stale), FrameError::SwapchainStale),
        (1, FrameEvent::FenceWait(false), FrameError::FenceWaitFailed),
        (2, FrameEvent::FenceReset(false), FrameError::FenceWaitFailed),
        (4, FrameEvent::Submit(false), FrameError::SubmitFailed),
        (5, FrameEvent::Present(PresentOutcome::Stale), FrameError::SwapchainStale),
        (5, FrameEvent::Present(PresentOutcome::Failed), FrameError::PresentFailed),
    ];
    for (n, ev, err) in cases {
        let mut gfx = GfxState::new(2, 2, 1000);
        upto(&mut gfx, n);
        assert!(gfx.accepts(ev));
        assert_eq!(gfx.on_event(ev), FrameStep::Finished(Err(err)));
        assert_eq!(gfx.phase(), Phase::Idle);
        assert_eq!(gfx.current_frame_slot(), 1);
    }
}

#[test]
fn failed_present_keeps_submitted_work_pending() {
    let mut gfx = GfxState::new(2, 2, 1000);
    let c = color(0.0, 0.0, 0.0, 1.0);
    gfx.draw_clear_frame(c);
    for e in [
        FrameEvent::Acquire(AcquireOutcome::Image(1)),
        FrameEvent::FenceWait(true),
        FrameEvent::FenceReset(true),
        FrameEvent::Recorded,
        FrameEvent::Submit(true),
    ] {
        gfx.on_event(e);
    }
    gfx.on_event(FrameEvent::Present(PresentOutcome::Failed));
    assert_eq!(gfx.fence_state(0), FenceState::Pending);
}

#[test]
fn renderer_accepts_only_the_awaited_event() {
    let mut gfx = GfxState::new(2, 2, 1000);
    assert!(!gfx.accepts(FrameEvent::Recorded));
    gfx.draw_clear_frame(color(0.0, 0.0, 0.0, 1.0));
    assert!(gfx.accepts(FrameEvent::Acquire(AcquireOutcome::Timeout)));
    assert!(!gfx.accepts(FrameEvent::FenceWait(true)));
    gfx.on_event(FrameEvent::Acquire(AcquireOutcome::Image(0)));
    assert!(gfx.accepts(FrameEvent::FenceWait(false)));
    assert!(!gfx.accepts(FrameEvent::Present(PresentOutcome::Presented)));
}

#[test]
fn shutdown_twice_is_a_no_op_the_second_time() {
    let mut gfx = GfxState::new(3, 3, 1000);
    let c = color(0.0, 0.0, 0.0, 1.0);
    successful_frame(&mut gfx, c, 0);
    successful_frame(&mut gfx, c, 1);
    // a third frame whose submission is refused leaves slot 2's fence reset
    gfx.draw_clear_frame(c);
    for e in [
        FrameEvent::Acquire(AcquireOutcome::Image(2)),
        FrameEvent::FenceWait(true),
        FrameEvent::FenceReset(true),
        FrameEvent::Recorded,
    ] {
        gfx.on_event(e);
    }
    gfx.on_event(FrameEvent::Submit(false));
    assert_eq!(gfx.fence_state(2), FenceState::Unsignaled);
    assert_eq!(gfx.rebuild_waits(), vec![0, 1]);
    assert_eq!(gfx.shutdown(), Some(vec![0, 1, 2]));
    assert_eq!(gfx.phase(), Phase::ShutDown);
    assert_eq!(gfx.shutdown(), None);
    assert_eq!(gfx.phase(), Phase::ShutDown);
    assert!(!gfx.accepts(FrameEvent::Recorded));
}

#[test]
fn shutdown_waits_on_every_fence_even_of_a_fresh_renderer() {
    let mut gfx = GfxState::new(2, 2, 1000);
    assert_eq!(gfx.shutdown(), Some(vec![0, 1]));
    assert_eq!(gfx.shutdown(), None);
}

#[test]
fn loop_driver_decisions() {
    assert_eq!(
        next_loop_action(LoopState::AwaitingInput, LoopEvent::Input { exit_requested: true }),
        (LoopState::Stopped, LoopAction::Shutdown(Ok(())))
    );
    assert_eq!(
        next_loop_action(LoopState::AwaitingInput, LoopEvent::Input { exit_requested: false }),
        (LoopState::RenderingFrame, LoopAction::RenderFrame)
    );
    assert_eq!(
        next_loop_action(LoopState::RenderingFrame, LoopEvent::FrameFinished(Ok(()))),
        (LoopState::AwaitingInput, LoopAction::PollInput)
    );
    assert_eq!(
        next_loop_action(LoopState::RenderingFrame, LoopEvent::FrameFinished(Err(FrameError::SwapchainStale))),
        (LoopState::Rebuilding, LoopAction::RebuildSwapchain)
    );
    for e in [
        FrameError::AcquireFailed,
        FrameError::AcquireTimeout,
        FrameError::SubmitFailed,
        FrameError::PresentFailed,
    ] {
        assert_eq!(
            next_loop_action(LoopState::RenderingFrame, LoopEvent::FrameFinished(Err(e))),
            (LoopState::Stopped, LoopAction::Shutdown(Err(e)))
        );
    }
    assert_eq!(
        next_loop_action(LoopState::Rebuilding, LoopEvent::Rebuilt),
        (LoopState::AwaitingInput, LoopAction::PollInput)
    );
}

#[test]
fn local_state_color_drives_the_frame() {
    let c = color(0.9, 0.8, 0.7, 1.0);
    let locals = LocalState::new(c);
    assert_eq!(locals.color(), c);
    let mut gfx = GfxState::new(2, 2, 1000);
    render_update(&mut gfx, &locals);
    gfx.on_event(FrameEvent::Acquire(AcquireOutcome::Image(1)));
    gfx.on_event(FrameEvent::FenceWait(true));
    assert_eq!(
        gfx.on_event(FrameEvent::FenceReset(true)),
        FrameStep::Record { slot: 0, framebuffer: 1, color: c }
    );
}

#[test]
fn single_slot_waits_on_its_own_fence_every_frame() {
    let mut gfx = GfxState::new(1, 2, 1000);
    let c = color(0.0, 0.0, 0.0, 1.0);
    for frame in 0..3u32 {
        let steps = successful_frame(&mut gfx, c, frame % 2);
        assert_eq!(slot_of(&steps[0]), 0);
        assert_eq!(steps[1], FrameStep::WaitFence { slot: 0, timeout_ns: FENCE_TIMEOUT_NS });
        assert_eq!(gfx.current_frame_slot(), 0);
    }
    assert_eq!(gfx.fence_state(0), FenceState::Pending);
    assert_eq!(gfx.shutdown(), Some(vec![0]));
}

#[test]
fn shutdown_after_a_failed_first_frame_waits_on_every_fence() {
    let mut gfx = GfxState::new(3, 2, 1000);
    gfx.draw_clear_frame(color(0.0, 0.0, 0.0, 1.0));
    gfx.on_event(FrameEvent::Acquire(AcquireOutcome::Failed));
    assert_eq!(gfx.rebuild_waits(), Vec::<usize>::new());
    assert_eq!(gfx.shutdown(), Some(vec![0, 1, 2]));
    assert_eq!(gfx.shutdown(), None);
}

#[test]
fn rebuild_waits_on_every_pending_fence_first() {
    let mut gfx = GfxState::new(3, 3, 1000);
    let c = color(0.0, 0.0, 0.0, 1.0);
    assert_eq!(gfx.rebuild_waits(), Vec::<usize>::new());
    successful_frame(&mut gfx, c, 0);
    successful_frame(&mut gfx, c, 1);
    gfx.draw_clear_frame(c);
    assert_eq!(
        gfx.on_event(FrameEvent::Acquire(AcquireOutcome::Stale)),
        FrameStep::Finished(Err(FrameError::SwapchainStale))
    );
    assert_eq!(gfx.rebuild_waits(), vec![0, 1]);
    gfx.rebuild(4);
    assert_eq!(gfx.rebuild_waits(), vec![0, 1]);
    assert_eq!(gfx.current_frame_slot(), 0);
}
