//! Plain values shared by the renderer and the loop driver: the clear color,
//! the error kinds, and the commands recorded into a slot's command buffer.

use vstd::prelude::*;

verus! {

/// A clear color, one IEEE-754 single-precision bit pattern per channel
/// (`f32::to_bits`), in red, green, blue, alpha order.
#[derive(Clone, Copy, Debug, PartialEq, Eq)]
pub struct ClearColor {
    pub red: u32,
    pub green: u32,
    pub blue: u32,
    pub alpha: u32,
}

impl ClearColor {
    pub fn from_bits(red: u32, green: u32, blue: u32, alpha: u32) -> (r: ClearColor)
        ensures
            r == (ClearColor { red, green, blue, alpha }),
    {
        ClearColor { red, green, blue, alpha }
    }
}

/// Why a frame did not complete.
#[derive(Clone, Copy, Debug, PartialEq, Eq)]
pub enum FrameError {
    /// The presentation engine gave no usable image.
    AcquireFailed,
    /// No image became available within the acquisition bound.
    AcquireTimeout,
    /// The surface was resized or invalidated; the swapchain must be rebuilt.
    SwapchainStale,
    /// The slot's fence did not signal in time, or could not be reset.
    FenceWaitFailed,
    /// The queue refused the submission.
    SubmitFailed,
    /// The presentation request failed.
    PresentFailed,
}

/// A GPU-side signal belonging to one frame slot.
#[derive(Clone, Copy, Debug, PartialEq, Eq)]
pub enum Semaphore {
    /// Fired by the presentation engine once the acquired image is usable.
    ImageAvailable(usize),
    /// Fired by the queue once the slot's rendering is complete.
    RenderFinished(usize),
}

/// The pipeline stage at which a submission waits.
#[derive(Clone, Copy, Debug, PartialEq, Eq)]
pub enum PipelineStage {
    ColorAttachmentOutput,
}

/// One command recorded into a slot's command buffer.
#[derive(Clone, Copy, Debug, PartialEq, Eq)]
pub enum Command {
    BeginRecording,
    /// Begins the render pass on the given framebuffer over its full area,
    /// clearing the color attachment to `clear_value`.
    BeginRenderPass { framebuffer: usize, clear_value: ClearColor },
    EndRenderPass,
    FinishRecording,
}

/// The commands that clear one framebuffer: a render pass with one clear
/// value and nothing inside it.
pub open spec fn clear_pass_commands(framebuffer: usize, color: ClearColor) -> Seq<Command> {
    seq![
        Command::BeginRecording,
        Command::BeginRenderPass { framebuffer, clear_value: color },
        Command::EndRenderPass,
        Command::FinishRecording,
    ]
}

/// The commands to record for a frame that clears `framebuffer` to `color`.
pub fn record_commands(framebuffer: usize, color: ClearColor) -> (r: Vec<Command>)
    ensures
        r@ == clear_pass_commands(framebuffer, color),
{
    let mut r: Vec<Command> = Vec::new();
    r.push(Command::BeginRecording);
    r.push(Command::BeginRenderPass { framebuffer, clear_value: color });
    r.push(Command::EndRenderPass);
    r.push(Command::FinishRecording);
    assert(r@ =~= clear_pass_commands(framebuffer, color));
    r
}

} // verus!
