//! The frame renderer: the per-frame state machine that selects a slot,
//! acquires an image, waits for and resets the slot's fence, records the
//! clear pass, submits it and presents the image.
//!
//! The renderer performs no GPU work itself. Each call hands back the next
//! `FrameStep` to carry out; the caller performs it and reports the outcome
//! as a `FrameEvent`.

use vstd::prelude::*;
use crate::frame::{ClearColor, FrameError, PipelineStage, Semaphore};

verus! {

/// Bound on the CPU-side wait for a slot's fence, in nanoseconds. Large, but
/// finite, so that a lost device surfaces as an error instead of a hang.
pub const FENCE_TIMEOUT_NS: u64 = 10_000_000_000;

/// What the renderer knows of one slot's fence.
#[derive(Clone, Copy, Debug, PartialEq, Eq)]
pub enum FenceState {
    /// Signaled; no GPU work of the slot is outstanding.
    Signaled,
    /// Reset and not yet handed to a submission.
    Unsignaled,
    /// Handed to a submission that the GPU may still be executing.
    Pending,
}

/// Where the renderer stands in the current frame. `slot` is the frame slot
/// and `image` the swapchain image index: two distinct index spaces.
#[derive(Clone, Copy, Debug, PartialEq, Eq)]
pub enum Phase {
    Idle,
    Acquiring { slot: usize },
    WaitingForFence { slot: usize, image: u32 },
    ResettingFence { slot: usize, image: u32 },
    Recording { slot: usize, image: u32 },
    Submitting { slot: usize, image: u32 },
    Presenting { slot: usize, image: u32 },
    ShutDown,
}

/// Outcome of an image acquisition.
#[derive(Clone, Copy, Debug, PartialEq, Eq)]
pub enum AcquireOutcome {
    Image(u32),
    Stale,
    Timeout,
    Failed,
}

/// Outcome of a presentation request.
#[derive(Clone, Copy, Debug, PartialEq, Eq)]
pub enum PresentOutcome {
    Presented,
    Stale,
    Failed,
}

/// The outcome of the step that the renderer last asked for.
#[derive(Clone, Copy, Debug, PartialEq, Eq)]
pub enum FrameEvent {
    Acquire(AcquireOutcome),
    /// Whether the fence wait succeeded within its bound.
    FenceWait(bool),
    /// Whether the fence was reset.
    FenceReset(bool),
    Recorded,
    /// Whether the queue accepted the submission.
    Submit(bool),
    Present(PresentOutcome),
}

/// A queue submission of one slot's command buffer.
#[derive(Clone, Copy, Debug, PartialEq, Eq)]
pub struct Submission {
    pub command_buffer: usize,
    pub wait_semaphore: Semaphore,
    pub wait_stage: PipelineStage,
    pub signal_semaphore: Semaphore,
    /// The slot whose fence the queue signals on completion.
    pub fence: usize,
}

/// The next thing the caller must do for the current frame.
#[derive(Clone, Copy, Debug, PartialEq, Eq)]
pub enum FrameStep {
    /// Acquire the next swapchain image, signalling `signal` once it is usable.
    Acquire { signal: Semaphore, timeout_ns: u64 },
    /// Block on the slot's fence.
    WaitFence { slot: usize, timeout_ns: u64 },
    /// Reset the slot's fence to unsignaled.
    ResetFence { slot: usize },
    /// Reset the slot's command buffer and record the clear pass of
    /// `crate::frame::record_commands(framebuffer, color)` into it.
    Record { slot: usize, framebuffer: usize, color: ClearColor },
    Submit(Submission),
    /// Present `image` once `wait` has fired.
    Present { image: u32, wait: Semaphore },
    /// The frame is over.
    Finished(Result<(), FrameError>),
}

/// A completed operation, as the renderer's history records it.
#[derive(Clone, Copy, Debug, PartialEq, Eq)]
pub enum Effect {
    Acquired { slot: usize, image: u32 },
    FenceWaited { slot: usize },
    FenceReset { slot: usize },
    Recorded { slot: usize, image: u32, color: ClearColor },
    Submitted { slot: usize },
    Presented { slot: usize, image: u32 },
}

/// The abstract state of a renderer.
pub struct RendererModel {
    /// N, the number of frame slots.
    pub frames_in_flight: nat,
    /// The slot that the next frame attempt uses.
    pub current_frame_slot: nat,
    /// The number of images, and framebuffers, of the current swapchain.
    pub image_count: nat,
    pub acquire_timeout_ns: u64,
    /// One fence per slot.
    pub fences: Seq<FenceState>,
    pub phase: Phase,
    /// The clear color of the frame in progress.
    pub color: ClearColor,
    /// The number of frame attempts begun so far.
    pub attempts: nat,
    /// Every completed operation, oldest first.
    pub history: Seq<Effect>,
}

impl Phase {
    pub open spec fn in_frame(self) -> bool {
        !(self is Idle) && !(self is ShutDown)
    }

    /// The slot of the frame in progress.
    pub open spec fn slot(self) -> usize {
        match self {
            Phase::Acquiring { slot } => slot,
            Phase::WaitingForFence { slot, .. } => slot,
            Phase::ResettingFence { slot, .. } => slot,
            Phase::Recording { slot, .. } => slot,
            Phase::Submitting { slot, .. } => slot,
            Phase::Presenting { slot, .. } => slot,
            _ => 0,
        }
    }

    /// The image acquired for the frame in progress.
    pub open spec fn image(self) -> u32 {
        match self {
            Phase::WaitingForFence { image, .. } => image,
            Phase::ResettingFence { image, .. } => image,
            Phase::Recording { image, .. } => image,
            Phase::Submitting { image, .. } => image,
            Phase::Presenting { image, .. } => image,
            _ => 0,
        }
    }
}

/// Every recording of a slot's command buffer comes right after a completed
/// wait on that slot's fence and the fence's reset.
pub open spec fn records_follow_wait_and_reset(h: Seq<Effect>) -> bool {
    forall|i: int|
        0 <= i < h.len() && (#[trigger] h[i]) is Recorded ==> {
            &&& 2 <= i
            &&& h[i - 2] == (Effect::FenceWaited { slot: h[i]->Recorded_slot })
            &&& h[i - 1] == (Effect::FenceReset { slot: h[i]->Recorded_slot })
        }
}

impl RendererModel {
    pub open spec fn inv(self) -> bool {
        &&& 0 < self.frames_in_flight <= usize::MAX
        &&& self.current_frame_slot < self.frames_in_flight
        &&& self.current_frame_slot == self.attempts % self.frames_in_flight
        &&& self.fences.len() == self.frames_in_flight
        &&& records_follow_wait_and_reset(self.history)
        &&& self.phase.in_frame() ==> {
            &&& self.attempts > 0
            &&& self.phase.slot() < self.frames_in_flight
            &&& self.phase.slot() == (self.attempts - 1) % (self.frames_in_flight as int)
            &&& !(self.phase is Acquiring) ==> self.phase.image() < self.image_count
        }
        &&& self.phase is ResettingFence ==> {
            &&& self.history.len() > 0
            &&& self.history.last() == (Effect::FenceWaited { slot: self.phase.slot() })
        }
        &&& self.phase is Recording ==> {
            &&& self.fences[self.phase.slot() as int] == FenceState::Unsignaled
            &&& self.history.len() >= 2
            &&& self.history[self.history.len() - 2] == (Effect::FenceWaited { slot: self.phase.slot() })
            &&& self.history.last() == (Effect::FenceReset { slot: self.phase.slot() })
        }
        &&& self.phase is Submitting ==> self.fences[self.phase.slot() as int] == FenceState::Unsignaled
        &&& self.phase is Presenting ==> self.fences[self.phase.slot() as int] == FenceState::Pending
    }

    /// Whether `ev` reports the outcome of the step the renderer asked for.
    pub open spec fn accepts(self, ev: FrameEvent) -> bool {
        match self.phase {
            Phase::Acquiring { .. } => ev is Acquire,
            Phase::WaitingForFence { .. } => ev is FenceWait,
            Phase::ResettingFence { .. } => ev is FenceReset,
            Phase::Recording { .. } => ev is Recorded,
            Phase::Submitting { .. } => ev is Submit,
            Phase::Presenting { .. } => ev is Present,
            _ => false,
        }
    }
}

/// A renderer with N slots, all fences signaled, nothing done yet.
pub open spec fn initial_model(frames_in_flight: nat, image_count: nat, acquire_timeout_ns: u64) -> RendererModel {
    RendererModel {
        frames_in_flight,
        current_frame_slot: 0,
        image_count,
        acquire_timeout_ns,
        fences: Seq::new(frames_in_flight, |i: int| FenceState::Signaled),
        phase: Phase::Idle,
        color: ClearColor { red: 0, green: 0, blue: 0, alpha: 0 },
        attempts: 0,
        history: Seq::empty(),
    }
}

/// Starting a frame: take the current slot, advance the slot counter before
/// anything can fail, and ask for an image.
pub open spec fn begin_spec(m: RendererModel, color: ClearColor) -> (RendererModel, FrameStep) {
    let slot = m.current_frame_slot as usize;
    (
        RendererModel {
            current_frame_slot: (m.current_frame_slot + 1) % m.frames_in_flight,
            attempts: m.attempts + 1,
            phase: Phase::Acquiring { slot },
            color,
            ..m
        },
        FrameStep::Acquire { signal: Semaphore::ImageAvailable(slot), timeout_ns: m.acquire_timeout_ns },
    )
}

/// The frame ends with `e`; the slot counter and the fences stay as they are.
pub open spec fn abandon(m: RendererModel, e: FrameError) -> (RendererModel, FrameStep) {
    (RendererModel { phase: Phase::Idle, ..m }, FrameStep::Finished(Err(e)))
}

/// One transition of the frame state machine on the outcome of a step.
pub open spec fn step_spec(m: RendererModel, ev: FrameEvent) -> (RendererModel, FrameStep) {
    match m.phase {
        Phase::Acquiring { slot } => match ev {
            FrameEvent::Acquire(AcquireOutcome::Image(image)) => if image < m.image_count {
                (
                    RendererModel {
                        phase: Phase::WaitingForFence { slot, image },
                        history: m.history.push(Effect::Acquired { slot, image }),
                        ..m
                    },
                    FrameStep::WaitFence { slot, timeout_ns: FENCE_TIMEOUT_NS },
                )
            } else {
                abandon(m, FrameError::AcquireFailed)
            },
            FrameEvent::Acquire(AcquireOutcome::Stale) => abandon(m, FrameError::SwapchainStale),
            FrameEvent::Acquire(AcquireOutcome::Timeout) => abandon(m, FrameError::AcquireTimeout),
            _ => abandon(m, FrameError::AcquireFailed),
        },
        Phase::WaitingForFence { slot, image } => if ev == FrameEvent::FenceWait(true) {
            (
                RendererModel {
                    phase: Phase::ResettingFence { slot, image },
                    fences: m.fences.update(slot as int, FenceState::Signaled),
                    history: m.history.push(Effect::FenceWaited { slot }),
                    ..m
                },
                FrameStep::ResetFence { slot },
            )
        } else {
            abandon(m, FrameError::FenceWaitFailed)
        },
        Phase::ResettingFence { slot, image } => if ev == FrameEvent::FenceReset(true) {
            (
                RendererModel {
                    phase: Phase::Recording { slot, image },
                    fences: m.fences.update(slot as int, FenceState::Unsignaled),
                    history: m.history.push(Effect::FenceReset { slot }),
                    ..m
                },
                FrameStep::Record { slot, framebuffer: image as usize, color: m.color },
            )
        } else {
            abandon(m, FrameError::FenceWaitFailed)
        },
        Phase::Recording { slot, image } => (
            RendererModel {
                phase: Phase::Submitting { slot, image },
                history: m.history.push(Effect::Recorded { slot, image, color: m.color }),
                ..m
            },
            FrameStep::Submit(
                Submission {
                    command_buffer: slot,
                    wait_semaphore: Semaphore::ImageAvailable(slot),
                    wait_stage: PipelineStage::ColorAttachmentOutput,
                    signal_semaphore: Semaphore::RenderFinished(slot),
                    fence: slot,
                },
            ),
        ),
        Phase::Submitting { slot, image } => if ev == FrameEvent::Submit(true) {
            (
                RendererModel {
                    phase: Phase::Presenting { slot, image },
                    fences: m.fences.update(slot as int, FenceState::Pending),
                    history: m.history.push(Effect::Submitted { slot }),
                    ..m
                },
                FrameStep::Present { image, wait: Semaphore::RenderFinished(slot) },
            )
        } else {
            abandon(m, FrameError::SubmitFailed)
        },
        Phase::Presenting { slot, image } => match ev {
            FrameEvent::Present(PresentOutcome::Presented) => (
                RendererModel {
                    phase: Phase::Idle,
                    history: m.history.push(Effect::Presented { slot, image }),
                    ..m
                },
                FrameStep::Finished(Ok(())),
            ),
            FrameEvent::Present(PresentOutcome::Stale) => abandon(m, FrameError::SwapchainStale),
            _ => abandon(m, FrameError::PresentFailed),
        },
        _ => (m, FrameStep::Finished(Ok(()))),
    }
}

/// Shutting down: the first call asks for a wait on the fence of every slot,
/// 0 to N - 1, and then the release of all resources; any later call asks for
/// nothing.
pub open spec fn shutdown_spec(m: RendererModel) -> (RendererModel, Option<Seq<usize>>) {
    if m.phase is ShutDown {
        (m, None)
    } else {
        (RendererModel { phase: Phase::ShutDown, ..m }, Some(all_slots(m.frames_in_flight)))
    }
}

/// The slots 0 to n - 1, in increasing order.
pub open spec fn all_slots(n: nat) -> Seq<usize> {
    Seq::new(n, |k: int| k as usize)
}

/// The slots whose fence is pending, in increasing order.
pub open spec fn pending_slots(fences: Seq<FenceState>) -> Seq<usize>
    decreases fences.len(),
{
    if fences.len() == 0 {
        Seq::empty()
    } else {
        let rest = pending_slots(fences.drop_last());
        if fences.last() == FenceState::Pending {
            rest.push((fences.len() - 1) as usize)
        } else {
            rest
        }
    }
}

/// The slot after that of attempt `a` is the slot of attempt `a + 1`.
pub(crate) proof fn lemma_slot_advance(a: nat, n: nat)
    requires
        n > 0,
    ensures
        (a % n + 1) % n == (a + 1) % n,
        ((a + 1) - 1) % (n as int) == a % n,
        a % n + 1 == n ==> (a + 1) % n == 0,
        a % n + 1 < n ==> (a + 1) % n == a % n + 1,
        (a + 1) % n < n,
{
    vstd::arithmetic::div_mod::lemma_add_mod_noop(a as int, 1, n as int);
    if n > 1 {
        vstd::arithmetic::div_mod::lemma_small_mod(1, n);
    } else {
        assert(1int % (n as int) == 0);
    }
    vstd::arithmetic::div_mod::lemma_mod_bound(a as int, n as int);
    vstd::arithmetic::div_mod::lemma_mod_bound((a + 1) as int, n as int);
    vstd::arithmetic::div_mod::lemma_mod_twice(a as int, n as int);
    if a % n + 1 < n {
        vstd::arithmetic::div_mod::lemma_small_mod((a % n + 1) as nat, n);
    } else {
        vstd::arithmetic::div_mod::lemma_mod_self_0(n as int);
    }
}

/// The frame renderer: N frame slots, each with its own fence, pair of
/// semaphores and command buffer, and the frame in progress.
pub struct GfxState {
    frames_in_flight: usize,
    current_frame_slot: usize,
    image_count: usize,
    acquire_timeout_ns: u64,
    fences: Vec<FenceState>,
    phase: Phase,
    color: ClearColor,
    attempts: Ghost<nat>,
    history: Ghost<Seq<Effect>>,
}

impl View for GfxState {
    type V = RendererModel;

    closed spec fn view(&self) -> RendererModel {
        RendererModel {
            frames_in_flight: self.frames_in_flight as nat,
            current_frame_slot: self.current_frame_slot as nat,
            image_count: self.image_count as nat,
            acquire_timeout_ns: self.acquire_timeout_ns,
            fences: self.fences@,
            phase: self.phase,
            color: self.color,
            attempts: self.attempts@,
            history: self.history@,
        }
    }
}

impl GfxState {
    pub open spec fn wf(&self) -> bool {
        self@.inv()
    }

    /// A renderer with `frames_in_flight` slots, whose fences start signaled
    /// so that the first wait on each returns at once, over a swapchain of
    /// `image_count` images.
    pub fn new(frames_in_flight: usize, image_count: usize, acquire_timeout_ns: u64) -> (r: GfxState)
        requires
            frames_in_flight > 0,
        ensures
            r.wf(),
            r@ == initial_model(frames_in_flight as nat, image_count as nat, acquire_timeout_ns),
    {
        let mut fences: Vec<FenceState> = Vec::new();
        let mut i: usize = 0;
        while i < frames_in_flight
            invariant
                i <= frames_in_flight,
                fences@ =~= Seq::new(i as nat, |j: int| FenceState::Signaled),
            decreases frames_in_flight - i,
        {
            fences.push(FenceState::Signaled);
            i = i + 1;
        }
        let r = GfxState {
            frames_in_flight,
            current_frame_slot: 0,
            image_count,
            acquire_timeout_ns,
            fences,
            phase: Phase::Idle,
            color: ClearColor { red: 0, green: 0, blue: 0, alpha: 0 },
            attempts: Ghost(0),
            history: Ghost(Seq::empty()),
        };
        assert(r@.fences =~= initial_model(frames_in_flight as nat, image_count as nat, acquire_timeout_ns).fences);
        proof {
            vstd::arithmetic::div_mod::lemma_small_mod(0, frames_in_flight as nat);
        }
        r
    }

    /// Begins a frame that clears the screen to `color`: takes the current
    /// slot, advances the slot counter, and returns the acquisition step.
    pub fn draw_clear_frame(&mut self, color: ClearColor) -> (r: FrameStep)
        requires
            old(self).wf(),
            old(self)@.phase is Idle,
        ensures
            final(self).wf(),
            (final(self)@, r) == begin_spec(old(self)@, color),
    {
        let slot = self.current_frame_slot;
        proof {
            lemma_slot_advance(self.attempts@, self.frames_in_flight as nat);
        }
        self.current_frame_slot = if slot + 1 == self.frames_in_flight { 0 } else { slot + 1 };
        self.attempts = Ghost(self.attempts@ + 1);
        self.phase = Phase::Acquiring { slot };
        self.color = color;
        FrameStep::Acquire { signal: Semaphore::ImageAvailable(slot), timeout_ns: self.acquire_timeout_ns }
    }

    /// Ends the frame in progress with `e`, keeping the slot counter and the
    /// fences as they are.
    fn abandon_frame(&mut self, e: FrameError) -> (r: FrameStep)
        requires
            old(self).wf(),
        ensures
            final(self).wf(),
            (final(self)@, r) == abandon(old(self)@, e),
    {
        self.phase = Phase::Idle;
        FrameStep::Finished(Err(e))
    }

    /// Advances the frame in progress on the outcome of the step it asked
    /// for, and returns the next step.
    pub fn on_event(&mut self, event: FrameEvent) -> (r: FrameStep)
        requires
            old(self).wf(),
            old(self)@.accepts(event),
        ensures
            final(self).wf(),
            (final(self)@, r) == step_spec(old(self)@, event),
    {
        let ghost m = self@;
        match self.phase {
            Phase::Acquiring { slot } => match event {
                FrameEvent::Acquire(AcquireOutcome::Image(image)) => {
                    if (image as usize) < self.image_count {
                        self.phase = Phase::WaitingForFence { slot, image };
                        self.history = Ghost(self.history@.push(Effect::Acquired { slot, image }));
                        proof { lemma_push_keeps_records(m.history, Effect::Acquired { slot, image }); }
                        FrameStep::WaitFence { slot, timeout_ns: FENCE_TIMEOUT_NS }
                    } else {
                        self.abandon_frame(FrameError::AcquireFailed)
                    }
                },
                FrameEvent::Acquire(AcquireOutcome::Stale) => self.abandon_frame(FrameError::SwapchainStale),
                FrameEvent::Acquire(AcquireOutcome::Timeout) => self.abandon_frame(FrameError::AcquireTimeout),
                _ => self.abandon_frame(FrameError::AcquireFailed),
            },
            Phase::WaitingForFence { slot, image } => match event {
                FrameEvent::FenceWait(true) => {
                    self.phase = Phase::ResettingFence { slot, image };
                    self.fences.set(slot, FenceState::Signaled);
                    self.history = Ghost(self.history@.push(Effect::FenceWaited { slot }));
                    proof { lemma_push_keeps_records(m.history, Effect::FenceWaited { slot }); }
                    FrameStep::ResetFence { slot }
                },
                _ => self.abandon_frame(FrameError::FenceWaitFailed),
            },
            Phase::ResettingFence { slot, image } => match event {
                FrameEvent::FenceReset(true) => {
                    self.phase = Phase::Recording { slot, image };
                    self.fences.set(slot, FenceState::Unsignaled);
                    self.history = Ghost(self.history@.push(Effect::FenceReset { slot }));
                    proof { lemma_push_keeps_records(m.history, Effect::FenceReset { slot }); }
                    FrameStep::Record { slot, framebuffer: image as usize, color: self.color }
                },
                _ => self.abandon_frame(FrameError::FenceWaitFailed),
            },
            Phase::Recording { slot, image } => {
                self.phase = Phase::Submitting { slot, image };
                self.history = Ghost(self.history@.push(Effect::Recorded { slot, image, color: self.color }));
                proof { lemma_push_record(m.history, slot, image, m.color); }
                FrameStep::Submit(
                    Submission {
                        command_buffer: slot,
                        wait_semaphore: Semaphore::ImageAvailable(slot),
                        wait_stage: PipelineStage::ColorAttachmentOutput,
                        signal_semaphore: Semaphore::RenderFinished(slot),
                        fence: slot,
                    },
                )
            },
            Phase::Submitting { slot, image } => match event {
                FrameEvent::Submit(true) => {
                    self.phase = Phase::Presenting { slot, image };
                    self.fences.set(slot, FenceState::Pending);
                    self.history = Ghost(self.history@.push(Effect::Submitted { slot }));
                    proof { lemma_push_keeps_records(m.history, Effect::Submitted { slot }); }
                    FrameStep::Present { image, wait: Semaphore::RenderFinished(slot) }
                },
                _ => self.abandon_frame(FrameError::SubmitFailed),
            },
            Phase::Presenting { slot, image } => match event {
                FrameEvent::Present(PresentOutcome::Presented) => {
                    self.phase = Phase::Idle;
                    self.history = Ghost(self.history@.push(Effect::Presented { slot, image }));
                    proof { lemma_push_keeps_records(m.history, Effect::Presented { slot, image }); }
                    FrameStep::Finished(Ok(()))
                },
                FrameEvent::Present(PresentOutcome::Stale) => self.abandon_frame(FrameError::SwapchainStale),
                _ => self.abandon_frame(FrameError::PresentFailed),
            },
            _ => FrameStep::Finished(Ok(())),
        }
    }
}

impl GfxState {
    /// Whether `event` reports the outcome of the step this renderer asked for.
    pub fn accepts(&self, event: FrameEvent) -> (r: bool)
        ensures
            r == self@.accepts(event),
    {
        match self.phase {
            Phase::Acquiring { .. } => matches!(event, FrameEvent::Acquire(_)),
            Phase::WaitingForFence { .. } => matches!(event, FrameEvent::FenceWait(_)),
            Phase::ResettingFence { .. } => matches!(event, FrameEvent::FenceReset(_)),
            Phase::Recording { .. } => matches!(event, FrameEvent::Recorded),
            Phase::Submitting { .. } => matches!(event, FrameEvent::Submit(_)),
            Phase::Presenting { .. } => matches!(event, FrameEvent::Present(_)),
            _ => false,
        }
    }

    /// Takes over a rebuilt swapchain of `image_count` images, between frames.
    /// The slot counter and the fences are kept. The old framebuffers may be
    /// destroyed only once the fences of `rebuild_waits` have been waited on.
    pub fn rebuild(&mut self, image_count: usize)
        requires
            old(self).wf(),
            old(self)@.phase is Idle,
        ensures
            final(self).wf(),
            final(self)@ == (RendererModel { image_count: image_count as nat, ..old(self)@ }),
    {
        self.image_count = image_count;
    }

    /// The slots whose fences must be waited on before a rebuild destroys
    /// the old framebuffers and swapchain: those whose submission may still
    /// be executing.
    pub fn rebuild_waits(&self) -> (r: Vec<usize>)
        requires
            self.wf(),
        ensures
            r@ == pending_slots(self@.fences),
    {
        let mut waits: Vec<usize> = Vec::new();
        let mut i: usize = 0;
        while i < self.fences.len()
            invariant
                self.wf(),
                i <= self.fences@.len(),
                waits@ == pending_slots(self.fences@.take(i as int)),
            decreases self.fences@.len() - i,
        {
            assert(self.fences@.take(i + 1).drop_last() =~= self.fences@.take(i as int));
            if matches!(self.fences[i], FenceState::Pending) {
                waits.push(i);
            }
            i = i + 1;
        }
        assert(self.fences@.take(i as int) =~= self.fences@);
        waits
    }

    /// Drains and releases: the first call returns every slot, whose fences
    /// must all be waited on before any resource is destroyed; any later call
    /// returns `None` and changes nothing.
    pub fn shutdown(&mut self) -> (r: Option<Vec<usize>>)
        requires
            old(self).wf(),
        ensures
            final(self).wf(),
            final(self)@ == shutdown_spec(old(self)@).0,
            match r {
                Some(v) => shutdown_spec(old(self)@).1 == Some(v@),
                None => shutdown_spec(old(self)@).1 is None,
            },
    {
        if matches!(self.phase, Phase::ShutDown) {
            return None;
        }
        let mut waits: Vec<usize> = Vec::new();
        let mut i: usize = 0;
        while i < self.frames_in_flight
            invariant
                self.wf(),
                !(self@.phase is ShutDown),
                i <= self.frames_in_flight,
                waits@ =~= all_slots(i as nat),
            decreases self.frames_in_flight - i,
        {
            waits.push(i);
            i = i + 1;
        }
        self.phase = Phase::ShutDown;
        Some(waits)
    }

    /// The slot that the next frame uses.
    pub fn current_frame_slot(&self) -> (r: usize)
        ensures
            r == self@.current_frame_slot,
    {
        self.current_frame_slot
    }

    /// N, the number of frame slots.
    pub fn frames_in_flight(&self) -> (r: usize)
        ensures
            r == self@.frames_in_flight,
    {
        self.frames_in_flight
    }

    /// The number of images of the current swapchain.
    pub fn image_count(&self) -> (r: usize)
        ensures
            r == self@.image_count,
    {
        self.image_count
    }

    /// What the renderer knows of `slot`'s fence.
    pub fn fence_state(&self, slot: usize) -> (r: FenceState)
        requires
            self.wf(),
            slot < self@.frames_in_flight,
        ensures
            r == self@.fences[slot as int],
    {
        self.fences[slot]
    }

    /// Where the renderer stands in the current frame.
    pub fn phase(&self) -> (r: Phase)
        ensures
            r == self@.phase,
    {
        self.phase
    }
}

/// Appending anything but a recording keeps the history's ordering rule.
pub(crate) proof fn lemma_push_keeps_records(h: Seq<Effect>, e: Effect)
    requires
        records_follow_wait_and_reset(h),
        !(e is Recorded),
    ensures
        records_follow_wait_and_reset(h.push(e)),
{
    assert forall|i: int| 0 <= i < h.push(e).len() && (#[trigger] h.push(e)[i]) is Recorded implies {
        &&& 2 <= i
        &&& h.push(e)[i - 2] == (Effect::FenceWaited { slot: h.push(e)[i]->Recorded_slot })
        &&& h.push(e)[i - 1] == (Effect::FenceReset { slot: h.push(e)[i]->Recorded_slot })
    } by {
        assert(i < h.len());
        assert(h.push(e)[i] == h[i]);
    }
}

/// A recording that comes right after the slot's wait and reset keeps the
/// history's ordering rule.
pub(crate) proof fn lemma_push_record(h: Seq<Effect>, slot: usize, image: u32, color: ClearColor)
    requires
        records_follow_wait_and_reset(h),
        h.len() >= 2,
        h[h.len() - 2] == (Effect::FenceWaited { slot }),
        h.last() == (Effect::FenceReset { slot }),
    ensures
        records_follow_wait_and_reset(h.push(Effect::Recorded { slot, image, color })),
{
    let e = Effect::Recorded { slot, image, color };
    assert forall|i: int| 0 <= i < h.push(e).len() && (#[trigger] h.push(e)[i]) is Recorded implies {
        &&& 2 <= i
        &&& h.push(e)[i - 2] == (Effect::FenceWaited { slot: h.push(e)[i]->Recorded_slot })
        &&& h.push(e)[i - 1] == (Effect::FenceReset { slot: h.push(e)[i]->Recorded_slot })
    } by {
        if i < h.len() {
            assert(h.push(e)[i] == h[i]);
        }
    }
}

} // verus!
