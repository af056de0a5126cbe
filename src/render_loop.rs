//! The render loop driver: what to do after each poll of the input and after
//! each frame. Exit is checked once per iteration; a stale swapchain is
//! rebuilt and the loop goes on; any other error stops the loop.

use vstd::prelude::*;
use crate::frame::{ClearColor, FrameError};
use crate::renderer::{begin_spec, FrameStep, GfxState};

verus! {

/// State that the input updates and the frames read: the clear color.
#[derive(Clone, Copy, Debug, PartialEq, Eq)]
pub struct LocalState {
    pub color: ClearColor,
}

impl LocalState {
    pub fn new(color: ClearColor) -> (r: LocalState)
        ensures
            r.color == color,
    {
        LocalState { color }
    }

    /// The color that the next frame clears to.
    pub fn color(&self) -> (r: ClearColor)
        ensures
            r == self.color,
    {
        self.color
    }
}

/// Begins the next frame with the clear color of `locals`.
pub fn render_update(gfx: &mut GfxState, locals: &LocalState) -> (r: FrameStep)
    requires
        old(gfx).wf(),
        old(gfx)@.phase is Idle,
    ensures
        final(gfx).wf(),
        (final(gfx)@, r) == begin_spec(old(gfx)@, locals.color),
{
    gfx.draw_clear_frame(locals.color())
}

/// Begins a frame that clears the screen to the color of `locals`.
pub fn clear_screen(gfx: &mut GfxState, locals: &LocalState) -> (r: FrameStep)
    requires
        old(gfx).wf(),
        old(gfx)@.phase is Idle,
    ensures
        final(gfx).wf(),
        (final(gfx)@, r) == begin_spec(old(gfx)@, locals.color),
{
    render_update(gfx, locals)
}

/// Where the loop stands.
#[derive(Clone, Copy, Debug, PartialEq, Eq)]
pub enum LoopState {
    AwaitingInput,
    RenderingFrame,
    Rebuilding,
    Stopped,
}

/// What the loop was told.
#[derive(Clone, Copy, Debug, PartialEq, Eq)]
pub enum LoopEvent {
    /// The input was polled.
    Input { exit_requested: bool },
    /// The frame renderer finished a frame.
    FrameFinished(Result<(), FrameError>),
    /// The swapchain and its framebuffers were rebuilt.
    Rebuilt,
}

/// What the loop asks for next.
#[derive(Clone, Copy, Debug, PartialEq, Eq)]
pub enum LoopAction {
    PollInput,
    /// Run one frame with the current clear color.
    RenderFrame,
    /// Rebuild the swapchain and framebuffers, then hand the renderer the new
    /// image count.
    RebuildSwapchain,
    /// Drain the in-flight frames, release everything, and end with the
    /// given result.
    Shutdown(Result<(), FrameError>),
}

/// Whether `event` is what the loop waits for in `state`.
pub open spec fn loop_accepts(state: LoopState, event: LoopEvent) -> bool {
    match state {
        LoopState::AwaitingInput => event is Input,
        LoopState::RenderingFrame => event is FrameFinished,
        LoopState::Rebuilding => event is Rebuilt,
        LoopState::Stopped => false,
    }
}

/// One decision of the loop.
pub open spec fn loop_step_spec(state: LoopState, event: LoopEvent) -> (LoopState, LoopAction) {
    match event {
        LoopEvent::Input { exit_requested } => if exit_requested {
            (LoopState::Stopped, LoopAction::Shutdown(Ok(())))
        } else {
            (LoopState::RenderingFrame, LoopAction::RenderFrame)
        },
        LoopEvent::FrameFinished(Ok(())) => (LoopState::AwaitingInput, LoopAction::PollInput),
        LoopEvent::FrameFinished(Err(FrameError::SwapchainStale)) => (
            LoopState::Rebuilding,
            LoopAction::RebuildSwapchain,
        ),
        LoopEvent::FrameFinished(Err(e)) => (LoopState::Stopped, LoopAction::Shutdown(Err(e))),
        LoopEvent::Rebuilt => (LoopState::AwaitingInput, LoopAction::PollInput),
    }
}

/// Decides what the loop does after `event` in `state`.
pub fn next_loop_action(state: LoopState, event: LoopEvent) -> (r: (LoopState, LoopAction))
    requires
        loop_accepts(state, event),
    ensures
        r == loop_step_spec(state, event),
{
    match event {
        LoopEvent::Input { exit_requested } => {
            if exit_requested {
                (LoopState::Stopped, LoopAction::Shutdown(Ok(())))
            } else {
                (LoopState::RenderingFrame, LoopAction::RenderFrame)
            }
        },
        LoopEvent::FrameFinished(Ok(())) => (LoopState::AwaitingInput, LoopAction::PollInput),
        LoopEvent::FrameFinished(Err(FrameError::SwapchainStale)) => (
            LoopState::Rebuilding,
            LoopAction::RebuildSwapchain,
        ),
        LoopEvent::FrameFinished(Err(e)) => (LoopState::Stopped, LoopAction::Shutdown(Err(e))),
        LoopEvent::Rebuilt => (LoopState::AwaitingInput, LoopAction::PollInput),
    }
}

/// Whether `event` is what the loop waits for in `state`.
pub fn loop_accepts_event(state: LoopState, event: LoopEvent) -> (r: bool)
    ensures
        r == loop_accepts(state, event),
{
    match state {
        LoopState::AwaitingInput => matches!(event, LoopEvent::Input { .. }),
        LoopState::RenderingFrame => matches!(event, LoopEvent::FrameFinished(_)),
        LoopState::Rebuilding => matches!(event, LoopEvent::Rebuilt),
        LoopState::Stopped => false,
    }
}

} // verus!
