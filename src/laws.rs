//! Properties of the frame renderer over sequences of frames.

use vstd::prelude::*;
use crate::frame::{ClearColor, FrameError, Semaphore};
use crate::render_loop::{loop_accepts, loop_step_spec, LoopAction, LoopEvent, LoopState};
use crate::renderer::{
    begin_spec, lemma_push_keeps_records, lemma_push_record, lemma_slot_advance,
    records_follow_wait_and_reset, shutdown_spec, all_slots, step_spec, AcquireOutcome, Effect, FenceState,
    FrameEvent, FrameStep, Phase, PresentOutcome, RendererModel,
};

verus! {

/// The renderer after one frame in which every step succeeds and the
/// presentation engine hands out `image`.
pub open spec fn run_frame(m: RendererModel, color: ClearColor, image: u32) -> RendererModel {
    let m1 = begin_spec(m, color).0;
    let m2 = step_spec(m1, FrameEvent::Acquire(AcquireOutcome::Image(image))).0;
    let m3 = step_spec(m2, FrameEvent::FenceWait(true)).0;
    let m4 = step_spec(m3, FrameEvent::FenceReset(true)).0;
    let m5 = step_spec(m4, FrameEvent::Recorded).0;
    let m6 = step_spec(m5, FrameEvent::Submit(true)).0;
    step_spec(m6, FrameEvent::Present(PresentOutcome::Presented)).0
}

/// The renderer after a run of successful frames, the i-th clearing to
/// `colors[i]` on image `images[i]`.
pub open spec fn run_frames(m: RendererModel, colors: Seq<ClearColor>, images: Seq<u32>) -> RendererModel
    decreases colors.len(),
{
    if colors.len() == 0 || images.len() == 0 {
        m
    } else {
        run_frames(run_frame(m, colors[0], images[0]), colors.drop_first(), images.drop_first())
    }
}

/// The operations of one successful frame on `slot`, in order.
pub open spec fn frame_effects(slot: usize, image: u32, color: ClearColor) -> Seq<Effect> {
    seq![
        Effect::Acquired { slot, image },
        Effect::FenceWaited { slot },
        Effect::FenceReset { slot },
        Effect::Recorded { slot, image, color },
        Effect::Submitted { slot },
        Effect::Presented { slot, image },
    ]
}

/// The operations of a run of successful frames whose first is attempt
/// number `first`, with `n` slots.
pub open spec fn run_effects(first: nat, n: nat, colors: Seq<ClearColor>, images: Seq<u32>) -> Seq<Effect>
    decreases colors.len(),
{
    if colors.len() == 0 || images.len() == 0 {
        Seq::empty()
    } else {
        frame_effects((first % n) as usize, images[0], colors[0])
            + run_effects(first + 1, n, colors.drop_first(), images.drop_first())
    }
}

/// Starting a frame keeps the renderer's invariant.
pub proof fn lemma_begin_keeps_invariant(m: RendererModel, color: ClearColor)
    requires
        m.inv(),
        m.phase is Idle,
    ensures
        begin_spec(m, color).0.inv(),
{
    lemma_slot_advance(m.attempts, m.frames_in_flight);
}

/// Every transition on the outcome of a step keeps the renderer's invariant.
pub proof fn lemma_step_keeps_invariant(m: RendererModel, ev: FrameEvent)
    requires
        m.inv(),
        m.accepts(ev),
    ensures
        step_spec(m, ev).0.inv(),
{
    let h = m.history;
    match m.phase {
        Phase::Acquiring { slot } => {
            if let FrameEvent::Acquire(AcquireOutcome::Image(image)) = ev {
                lemma_push_keeps_records(h, Effect::Acquired { slot, image });
            }
        },
        Phase::WaitingForFence { slot, .. } => {
            lemma_push_keeps_records(h, Effect::FenceWaited { slot });
        },
        Phase::ResettingFence { slot, .. } => {
            lemma_push_keeps_records(h, Effect::FenceReset { slot });
        },
        Phase::Recording { slot, image } => {
            lemma_push_record(h, slot, image, m.color);
        },
        Phase::Submitting { slot, .. } => {
            lemma_push_keeps_records(h, Effect::Submitted { slot });
        },
        Phase::Presenting { slot, image } => {
            lemma_push_keeps_records(h, Effect::Presented { slot, image });
        },
        _ => {},
    }
}

/// In every state a renderer can reach, each recording of a slot's command
/// buffer comes right after a completed wait on that slot's fence and the
/// fence's reset: no command buffer is touched while its slot's previous
/// submission may still be executing.
pub proof fn lemma_recording_follows_fence_wait(m: RendererModel)
    requires
        m.inv(),
    ensures
        records_follow_wait_and_reset(m.history),
        m.phase is Recording ==> m.fences[m.phase.slot() as int] == FenceState::Unsignaled,
{
}

/// One successful frame uses slot `current_frame_slot`, waits on its fence
/// exactly once, then resets it, records, submits and presents, and leaves
/// the fence pending.
pub proof fn lemma_successful_frame(m: RendererModel, color: ClearColor, image: u32)
    requires
        m.inv(),
        m.phase is Idle,
        image < m.image_count,
    ensures
        ({
            let r = run_frame(m, color, image);
            &&& r.inv()
            &&& r.phase is Idle
            &&& r.history == m.history + frame_effects(m.current_frame_slot as usize, image, color)
            &&& r.attempts == m.attempts + 1
            &&& r.current_frame_slot == (m.attempts + 1) % m.frames_in_flight
            &&& r.fences == m.fences.update(m.current_frame_slot as int, FenceState::Pending)
            &&& r.frames_in_flight == m.frames_in_flight
            &&& r.image_count == m.image_count
        }),
{
    let m1 = begin_spec(m, color).0;
    lemma_begin_keeps_invariant(m, color);
    lemma_slot_advance(m.attempts, m.frames_in_flight);
    let m2 = step_spec(m1, FrameEvent::Acquire(AcquireOutcome::Image(image))).0;
    lemma_step_keeps_invariant(m1, FrameEvent::Acquire(AcquireOutcome::Image(image)));
    let m3 = step_spec(m2, FrameEvent::FenceWait(true)).0;
    lemma_step_keeps_invariant(m2, FrameEvent::FenceWait(true));
    let m4 = step_spec(m3, FrameEvent::FenceReset(true)).0;
    lemma_step_keeps_invariant(m3, FrameEvent::FenceReset(true));
    let m5 = step_spec(m4, FrameEvent::Recorded).0;
    lemma_step_keeps_invariant(m4, FrameEvent::Recorded);
    let m6 = step_spec(m5, FrameEvent::Submit(true)).0;
    lemma_step_keeps_invariant(m5, FrameEvent::Submit(true));
    let m7 = step_spec(m6, FrameEvent::Present(PresentOutcome::Presented)).0;
    lemma_step_keeps_invariant(m6, FrameEvent::Present(PresentOutcome::Presented));
    let slot = m.current_frame_slot as usize;
    assert(m7.history =~= m.history + frame_effects(slot, image, color));
    assert(m7.fences =~= m.fences.update(slot as int, FenceState::Pending));
}

/// Over any run of successful frames, the i-th frame uses slot
/// `(attempts + i) mod N`, and its operations are exactly those of one
/// successful frame on that slot: one wait on the slot's fence, then its
/// reset, then the recording. Frames i and i + N thus share a slot, and the
/// later one records only after waiting on the fence that the earlier one
/// submitted with.
pub proof fn lemma_successful_frames(m: RendererModel, colors: Seq<ClearColor>, images: Seq<u32>)
    requires
        m.inv(),
        m.phase is Idle,
        colors.len() == images.len(),
        forall|i: int| 0 <= i < images.len() ==> #[trigger] images[i] < m.image_count,
    ensures
        ({
            let r = run_frames(m, colors, images);
            &&& r.inv()
            &&& r.phase is Idle
            &&& r.history == m.history + run_effects(m.attempts, m.frames_in_flight, colors, images)
            &&& r.attempts == m.attempts + colors.len()
            &&& r.current_frame_slot == (m.attempts + colors.len()) % m.frames_in_flight
            &&& r.frames_in_flight == m.frames_in_flight
            &&& r.image_count == m.image_count
        }),
    decreases colors.len(),
{
    if colors.len() == 0 {
        assert(m.history + run_effects(m.attempts, m.frames_in_flight, colors, images) =~= m.history);
    } else {
        lemma_successful_frame(m, colors[0], images[0]);
        let m1 = run_frame(m, colors[0], images[0]);
        let rest_c = colors.drop_first();
        let rest_i = images.drop_first();
        assert forall|i: int| 0 <= i < rest_i.len() implies #[trigger] rest_i[i] < m1.image_count by {
            assert(rest_i[i] == images[i + 1]);
        }
        lemma_successful_frames(m1, rest_c, rest_i);
        let fe = frame_effects(m.current_frame_slot as usize, images[0], colors[0]);
        let re = run_effects(m.attempts + 1, m.frames_in_flight, rest_c, rest_i);
        assert(run_effects(m.attempts, m.frames_in_flight, colors, images) == fe + re);
        assert((m.history + fe) + re =~= m.history + (fe + re));
    }
}

/// The operations of a run of successful frames come in blocks of six, the
/// i-th block being those of the i-th frame.
proof fn lemma_run_effects_index(first: nat, n: nat, colors: Seq<ClearColor>, images: Seq<u32>, i: int, j: int)
    requires
        n > 0,
        colors.len() == images.len(),
        0 <= i < colors.len(),
        0 <= j < 6,
    ensures
        run_effects(first, n, colors, images).len() == 6 * colors.len(),
        run_effects(first, n, colors, images)[6 * i + j]
            == frame_effects(((first + i) % (n as int)) as usize, images[i], colors[i])[j],
    decreases colors.len(),
{
    let fe = frame_effects((first % n) as usize, images[0], colors[0]);
    let rest = run_effects(first + 1, n, colors.drop_first(), images.drop_first());
    assert(run_effects(first, n, colors, images) == fe + rest);
    if i == 0 {
        if colors.len() > 1 {
            lemma_run_effects_index(first + 1, n, colors.drop_first(), images.drop_first(), 0, 0);
        } else {
            assert(rest.len() == 0);
        }
    } else {
        lemma_run_effects_index(first + 1, n, colors.drop_first(), images.drop_first(), i - 1, j);
        assert(first + 1 + (i - 1) == first + i);
    }
}

/// Within any N consecutive attempts, no two use the same slot.
proof fn lemma_slots_distinct_in_window(a: int, d: int, n: int)
    requires
        0 <= a,
        0 < d < n,
    ensures
        (a + d) % n != a % n,
{
    vstd::arithmetic::div_mod::lemma_fundamental_div_mod(a, n);
    vstd::arithmetic::div_mod::lemma_fundamental_div_mod(a + d, n);
    let q1 = a / n;
    let q2 = (a + d) / n;
    if (a + d) % n == a % n {
        assert(d == n * (q2 - q1)) by (nonlinear_arith)
            requires
                a == n * q1 + a % n,
                a + d == n * q2 + (a + d) % n,
                (a + d) % n == a % n,
        ;
        assert(false) by (nonlinear_arith)
            requires
                d == n * (q2 - q1),
                0 < d < n,
        ;
    }
}

/// The only wait among the operations of one successful frame is its second.
proof fn lemma_frame_effects_wait(slot: usize, image: u32, color: ClearColor, r: int, other: usize)
    requires
        0 <= r < 6,
        frame_effects(slot, image, color)[r] == (Effect::FenceWaited { slot: other }),
    ensures
        r == 1,
        slot == other,
{
    let fe = frame_effects(slot, image, color);
    assert(fe[0] is Acquired);
    assert(fe[2] is FenceReset);
    assert(fe[3] is Recorded);
    assert(fe[4] is Submitted);
    assert(fe[5] is Presented);
    assert(fe[1] == (Effect::FenceWaited { slot }));
}

/// In the operations of a run of successful frames, between the recording of
/// frame i and that of frame i + n, the only wait on frame i's slot is the
/// one of frame i + n.
proof fn lemma_window_waits(first: nat, n: nat, colors: Seq<ClearColor>, images: Seq<u32>, i: int)
    requires
        2 <= n <= usize::MAX,
        colors.len() == images.len(),
        0 <= i,
        i + n < colors.len(),
    ensures
        ({
            let e = run_effects(first, n, colors, images);
            let slot = ((first + i) % (n as int)) as usize;
            &&& e[6 * i + 3] == (Effect::Recorded { slot, image: images[i], color: colors[i] })
            &&& e[6 * (i + n) + 3] == (Effect::Recorded { slot, image: images[i + n], color: colors[i + n] })
            &&& e[6 * (i + n) + 1] == (Effect::FenceWaited { slot })
            &&& e[6 * (i + n) + 2] == (Effect::FenceReset { slot })
            &&& forall|q: int|
                6 * i + 3 < q < 6 * (i + n) + 3 && #[trigger] e[q] == (Effect::FenceWaited { slot }) ==> q == 6
                    * (i + n) + 1
        }),
{
    let e = run_effects(first, n, colors, images);
    let ni = n as int;
    let a = first + i;
    let slot = (a % ni) as usize;
    vstd::arithmetic::div_mod::lemma_mod_bound(a, ni);
    vstd::arithmetic::div_mod::lemma_mod_add_multiples_vanish(a, ni);
    assert(first + (i + ni) == a + ni);
    lemma_run_effects_index(first, n, colors, images, i, 3);
    lemma_run_effects_index(first, n, colors, images, i + ni, 3);
    lemma_run_effects_index(first, n, colors, images, i + ni, 1);
    lemma_run_effects_index(first, n, colors, images, i + ni, 2);
    assert forall|q: int| 6 * i + 3 < q < 6 * (i + n) + 3 && #[trigger] e[q] == (Effect::FenceWaited { slot }) implies q
        == 6 * (i + n) + 1 by {
        let j = q / 6;
        let r = q % 6;
        assert(q == 6 * j + r);
        lemma_run_effects_index(first, n, colors, images, j, r);
        let sj = ((first + j) % ni) as usize;
        lemma_frame_effects_wait(sj, images[j], colors[j], r, slot);
        if j < i + ni {
            vstd::arithmetic::div_mod::lemma_mod_bound(first + j, ni);
            lemma_slots_distinct_in_window(a, j - i, ni);
            assert(a + (j - i) == first + j);
        }
    }
}

/// For N >= 2 slots and a run of successful frames, frame i and frame i + N
/// use the same slot, and between the recording of that slot's command buffer
/// for frame i and its re-recording for frame i + N, the slot's fence is
/// waited on exactly once: right before the re-recording, after which it is
/// reset.
pub proof fn lemma_one_wait_between_reuses(m: RendererModel, colors: Seq<ClearColor>, images: Seq<u32>, i: int)
    requires
        m.inv(),
        m.phase is Idle,
        m.frames_in_flight >= 2,
        colors.len() == images.len(),
        forall|k: int| 0 <= k < images.len() ==> #[trigger] images[k] < m.image_count,
        0 <= i,
        i + m.frames_in_flight < colors.len(),
    ensures
        ({
            let h = run_frames(m, colors, images).history;
            let n = m.frames_in_flight as int;
            let slot = ((m.attempts + i) % n) as usize;
            let first = m.history.len() + 6 * i + 3;
            let again = m.history.len() + 6 * (i + n) + 3;
            &&& h[first] == (Effect::Recorded { slot, image: images[i], color: colors[i] })
            &&& h[again] == (Effect::Recorded { slot, image: images[i + n], color: colors[i + n] })
            &&& h[again - 2] == (Effect::FenceWaited { slot })
            &&& h[again - 1] == (Effect::FenceReset { slot })
            &&& forall|p: int| first < p < again && #[trigger] h[p] == (Effect::FenceWaited { slot }) ==> p == again - 2
        }),
{
    let n = m.frames_in_flight as int;
    let base = m.history.len() as int;
    lemma_successful_frames(m, colors, images);
    lemma_window_waits(m.attempts, m.frames_in_flight, colors, images, i);
    lemma_run_effects_index(m.attempts, m.frames_in_flight, colors, images, 0, 0);
    let h = run_frames(m, colors, images).history;
    let e = run_effects(m.attempts, m.frames_in_flight, colors, images);
    let slot = ((m.attempts + i) % n) as usize;
    assert(h == m.history + e);
    assert forall|p: int| base + 6 * i + 3 < p < base + 6 * (i + n) + 3 && #[trigger] h[p] == (Effect::FenceWaited { slot }) implies
        p == base + 6 * (i + n) + 1 by {
        assert(h[p] == e[p - base]);
    }
}

/// The slot of a frame is the number of frame attempts before it, mod N,
/// whatever images the presentation engine handed out and however earlier
/// frames ended.
pub proof fn lemma_slot_is_attempt_count_mod_n(m: RendererModel, color: ClearColor)
    requires
        m.inv(),
        m.phase is Idle,
    ensures
        begin_spec(m, color).0.phase == (Phase::Acquiring { slot: (m.attempts % m.frames_in_flight) as usize }),
        begin_spec(m, color).1 == (FrameStep::Acquire {
            signal: Semaphore::ImageAvailable((m.attempts % m.frames_in_flight) as usize),
            timeout_ns: m.acquire_timeout_ns,
        }),
{
}

/// Two successful frames from the same state that differ only in the image
/// the presentation engine hands out use the same slot, fence, semaphores and
/// command buffer, and leave the same slot counter and fences: only the
/// framebuffer recorded and the image presented differ.
pub proof fn lemma_slot_independent_of_image(m: RendererModel, color: ClearColor, image1: u32, image2: u32)
    requires
        m.inv(),
        m.phase is Idle,
        image1 < m.image_count,
        image2 < m.image_count,
    ensures
        ({
            let r1 = run_frame(m, color, image1);
            let r2 = run_frame(m, color, image2);
            let slot = m.current_frame_slot as usize;
            &&& r1.current_frame_slot == r2.current_frame_slot
            &&& r1.fences == r2.fences
            &&& r1.attempts == r2.attempts
            &&& r1.history == m.history + frame_effects(slot, image1, color)
            &&& r2.history == m.history + frame_effects(slot, image2, color)
        }),
{
    lemma_successful_frame(m, color, image1);
    lemma_successful_frame(m, color, image2);
}

/// A fence wait that does not complete within its bound ends the frame with
/// `FenceWaitFailed` and no further step: nothing is reset, recorded,
/// submitted or presented, the fences are as before, and the slot counter is
/// advanced once. The loop driver then stops and accepts no further event, so
/// no frame is started again.
pub proof fn lemma_fence_timeout_halts(m: RendererModel, color: ClearColor, image: u32)
    requires
        m.inv(),
        m.phase is Idle,
        image < m.image_count,
    ensures
        ({
            let m1 = begin_spec(m, color).0;
            let m2 = step_spec(m1, FrameEvent::Acquire(AcquireOutcome::Image(image))).0;
            let (m3, step) = step_spec(m2, FrameEvent::FenceWait(false));
            &&& step == FrameStep::Finished(Err(FrameError::FenceWaitFailed))
            &&& m3.phase is Idle
            &&& m3.fences == m.fences
            &&& m3.current_frame_slot == (m.current_frame_slot + 1) % m.frames_in_flight
            &&& m3.history == m.history.push(Effect::Acquired { slot: m.current_frame_slot as usize, image })
        }),
        loop_step_spec(LoopState::RenderingFrame, LoopEvent::FrameFinished(Err(FrameError::FenceWaitFailed)))
            == (LoopState::Stopped, LoopAction::Shutdown(Err(FrameError::FenceWaitFailed))),
        forall|e: LoopEvent| !loop_accepts(LoopState::Stopped, e),
{
}

/// A stale swapchain at acquisition ends the frame with `SwapchainStale`
/// and leaves the slot rotation advanced by exactly one: after the rebuild,
/// the next attempt uses the next slot in sequence.
pub proof fn lemma_stale_acquire_keeps_rotation(
    m: RendererModel,
    color: ClearColor,
    next_color: ClearColor,
    new_image_count: nat,
)
    requires
        m.inv(),
        m.phase is Idle,
    ensures
        ({
            let m1 = begin_spec(m, color).0;
            let (m2, step) = step_spec(m1, FrameEvent::Acquire(AcquireOutcome::Stale));
            let rebuilt = RendererModel { image_count: new_image_count, ..m2 };
            &&& step == FrameStep::Finished(Err(FrameError::SwapchainStale))
            &&& m2.phase is Idle
            &&& m2.fences == m.fences
            &&& m2.attempts == m.attempts + 1
            &&& m2.current_frame_slot == (m.current_frame_slot + 1) % m.frames_in_flight
            &&& rebuilt.inv()
            &&& begin_spec(rebuilt, next_color).0.phase == (Phase::Acquiring {
                slot: ((m.current_frame_slot + 1) % m.frames_in_flight) as usize,
            })
        }),
{
    lemma_begin_keeps_invariant(m, color);
    lemma_step_keeps_invariant(begin_spec(m, color).0, FrameEvent::Acquire(AcquireOutcome::Stale));
}

/// The first shutdown asks for a wait on the fence of every slot; shutting
/// down twice is shutting down once: the second call asks for no wait and no
/// release, and changes nothing.
pub proof fn lemma_shutdown_idempotent(m: RendererModel)
    requires
        m.inv(),
        !(m.phase is ShutDown),
    ensures
        ({
            let (m1, first) = shutdown_spec(m);
            let (m2, second) = shutdown_spec(m1);
            &&& m1.inv()
            &&& m1.phase is ShutDown
            &&& first == Some(all_slots(m.frames_in_flight))
            &&& second is None
            &&& m2 == m1
        }),
{
    let m1 = shutdown_spec(m).0;
    assert(m1.history == m.history);
}

} // verus!
