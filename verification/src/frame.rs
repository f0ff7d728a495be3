//! The per-frame synchronization state machine.
//!
//! One render cycle runs `Idle -> FenceWait -> ImageAcquire -> Recording ->
//! Submitted -> Presented -> Idle`, synchronously and with exactly one frame
//! in flight. The engine holds no GPU handle: it hands out the next piece of
//! outside work as a [`FrameAction`] and consumes the driver's outcome as a
//! [`FrameEvent`]. Every transition, including every failure, is fixed by
//! [`step_spec`].

use vstd::prelude::*;
use crate::error::RendererError;

verus! {

/// The fixed budget, in nanoseconds, for a fence wait and for an image
/// acquisition: one second. On expiry the cycle fails with `FrameTimeout`;
/// there is no retry.
pub const FRAME_BUDGET_NS: u64 = 1_000_000_000;

/// Where the current render cycle stands. `Idle` means no cycle is running
/// and the engine may begin the next one.
#[derive(Clone, Copy, Debug, PartialEq, Eq, Structural)]
pub enum FramePhase {
    Idle,
    FenceWait,
    ImageAcquire,
    Recording { image_index: u32 },
    Submitted { image_index: u32 },
    Presented { image_index: u32 },
}

/// The outcome the driver reported for the action the engine last handed out.
#[derive(Clone, Copy, Debug, PartialEq, Eq, Structural)]
pub enum FrameEvent {
    /// The action completed.
    Completed,
    /// An image acquisition completed and yielded this swapchain image index.
    ImageReady { image_index: u32 },
    /// A fence wait or an image acquisition ran out of its budget.
    TimedOut,
    /// The action failed with this raw graphics-API result code.
    DeviceFailure { code: i32 },
}

/// The next piece of outside work in the cycle.
#[derive(Clone, Copy, Debug, PartialEq, Eq, Structural)]
pub enum FrameAction {
    /// Block on the render fence up to `timeout_ns`, then reset it.
    WaitFence { timeout_ns: u64 },
    /// Request the next presentable image, signalling the present semaphore,
    /// with a budget of `timeout_ns`.
    AcquireImage { timeout_ns: u64 },
    /// Reset and record the command buffer against image `image_index`:
    /// transition the image to color-attachment layout, clear it with the
    /// color derived from `frame_number`, and transition it to present
    /// layout.
    Record { image_index: u32, frame_number: u64 },
    /// Submit the command buffer to the graphics queue: wait on the present
    /// semaphore, signal the render semaphore, signal the render fence on
    /// completion.
    Submit { image_index: u32 },
    /// Present image `image_index`, waiting on the render semaphore.
    Present { image_index: u32 },
    /// The cycle is complete; nothing is left to do until the next one.
    Rest,
}

/// The engine's whole state: the phase of the current cycle and the count of
/// cycles completed so far. The counter is monotonically increasing, starts
/// at zero, and only drives the periodic clear-color animation.
#[derive(Clone, Copy, Debug, PartialEq, Eq, Structural)]
pub struct FrameEngine {
    pub phase: FramePhase,
    pub frame_number: u64,
}

/// The whole transition table. For an engine state and a reported outcome it
/// gives the next state and either the next action or the error the cycle
/// fails with; `None` marks the pairs the protocol never produces.
///
/// Failures never move the engine: a timeout while waiting on the fence or
/// acquiring an image is `FrameTimeout`; a device failure while recording or
/// submitting (the fence wait included) is `Submission`; a device failure
/// while acquiring or presenting is `Present`. The cycle counter advances
/// exactly on the successful completion of a present, nowhere else.
pub open spec fn step_spec(engine: FrameEngine, event: FrameEvent) -> Option<
    (FrameEngine, Result<FrameAction, RendererError>),
> {
    match (engine.phase, event) {
        (FramePhase::FenceWait, FrameEvent::Completed) => Some(
            (
                FrameEngine { phase: FramePhase::ImageAcquire, frame_number: engine.frame_number },
                Ok(FrameAction::AcquireImage { timeout_ns: FRAME_BUDGET_NS }),
            ),
        ),
        (FramePhase::FenceWait, FrameEvent::TimedOut) => Some(
            (engine, Err(RendererError::FrameTimeout)),
        ),
        (FramePhase::FenceWait, FrameEvent::DeviceFailure { code }) => Some(
            (engine, Err(RendererError::Submission { code })),
        ),
        (FramePhase::ImageAcquire, FrameEvent::ImageReady { image_index }) => Some(
            (
                FrameEngine {
                    phase: FramePhase::Recording { image_index },
                    frame_number: engine.frame_number,
                },
                Ok(FrameAction::Record { image_index, frame_number: engine.frame_number }),
            ),
        ),
        (FramePhase::ImageAcquire, FrameEvent::TimedOut) => Some(
            (engine, Err(RendererError::FrameTimeout)),
        ),
        (FramePhase::ImageAcquire, FrameEvent::DeviceFailure { code }) => Some(
            (engine, Err(RendererError::Present { code })),
        ),
        (FramePhase::Recording { image_index }, FrameEvent::Completed) => Some(
            (
                FrameEngine {
                    phase: FramePhase::Submitted { image_index },
                    frame_number: engine.frame_number,
                },
                Ok(FrameAction::Submit { image_index }),
            ),
        ),
        (FramePhase::Recording { .. }, FrameEvent::DeviceFailure { code }) => Some(
            (engine, Err(RendererError::Submission { code })),
        ),
        (FramePhase::Submitted { image_index }, FrameEvent::Completed) => Some(
            (
                FrameEngine {
                    phase: FramePhase::Presented { image_index },
                    frame_number: engine.frame_number,
                },
                Ok(FrameAction::Present { image_index }),
            ),
        ),
        (FramePhase::Submitted { .. }, FrameEvent::DeviceFailure { code }) => Some(
            (engine, Err(RendererError::Submission { code })),
        ),
        (FramePhase::Presented { .. }, FrameEvent::Completed) => Some(
            (
                FrameEngine {
                    phase: FramePhase::Idle,
                    frame_number: (engine.frame_number + 1) as u64,
                },
                Ok(FrameAction::Rest),
            ),
        ),
        (FramePhase::Presented { .. }, FrameEvent::DeviceFailure { code }) => Some(
            (engine, Err(RendererError::Present { code })),
        ),
        _ => None,
    }
}

impl FrameEngine {
    /// A fresh engine: no cycle running, counter at zero.
    pub fn new() -> (engine: FrameEngine)
        ensures
            engine.phase is Idle,
            engine.frame_number == 0,
    {
        FrameEngine { phase: FramePhase::Idle, frame_number: 0 }
    }

    /// Begin a render cycle: the engine moves to the fence wait and hands out
    /// the wait on the render fence, bounded by the one-second budget.
    pub fn begin_frame(&mut self) -> (action: FrameAction)
        requires
            old(self).phase is Idle,
        ensures
            final(self).phase is FenceWait,
            final(self).frame_number == old(self).frame_number,
            action == (FrameAction::WaitFence { timeout_ns: FRAME_BUDGET_NS }),
    {
        self.phase = FramePhase::FenceWait;
        FrameAction::WaitFence { timeout_ns: FRAME_BUDGET_NS }
    }

    /// Feed back the outcome of the last action. The result is the next
    /// action of the cycle, or the error the cycle fails with, exactly as
    /// [`step_spec`] fixes it.
    pub fn step(&mut self, event: FrameEvent) -> (r: Result<FrameAction, RendererError>)
        requires
            step_spec(*old(self), event) is Some,
            (old(self).phase is Presented && event is Completed) ==> old(self).frame_number
                < u64::MAX,
        ensures
            step_spec(*old(self), event) == Some((*final(self), r)),
    {
        match (self.phase, event) {
            (FramePhase::FenceWait, FrameEvent::Completed) => {
                self.phase = FramePhase::ImageAcquire;
                Ok(FrameAction::AcquireImage { timeout_ns: FRAME_BUDGET_NS })
            },
            (FramePhase::FenceWait, FrameEvent::TimedOut) => Err(RendererError::FrameTimeout),
            (FramePhase::FenceWait, FrameEvent::DeviceFailure { code }) => Err(
                RendererError::Submission { code },
            ),
            (FramePhase::ImageAcquire, FrameEvent::ImageReady { image_index }) => {
                self.phase = FramePhase::Recording { image_index };
                Ok(FrameAction::Record { image_index, frame_number: self.frame_number })
            },
            (FramePhase::ImageAcquire, FrameEvent::TimedOut) => Err(RendererError::FrameTimeout),
            (FramePhase::ImageAcquire, FrameEvent::DeviceFailure { code }) => Err(
                RendererError::Present { code },
            ),
            (FramePhase::Recording { image_index }, FrameEvent::Completed) => {
                self.phase = FramePhase::Submitted { image_index };
                Ok(FrameAction::Submit { image_index })
            },
            (FramePhase::Recording { .. }, FrameEvent::DeviceFailure { code }) => Err(
                RendererError::Submission { code },
            ),
            (FramePhase::Submitted { image_index }, FrameEvent::Completed) => {
                self.phase = FramePhase::Presented { image_index };
                Ok(FrameAction::Present { image_index })
            },
            (FramePhase::Submitted { .. }, FrameEvent::DeviceFailure { code }) => Err(
                RendererError::Submission { code },
            ),
            (FramePhase::Presented { .. }, FrameEvent::Completed) => {
                self.phase = FramePhase::Idle;
                self.frame_number = self.frame_number + 1;
                Ok(FrameAction::Rest)
            },
            (FramePhase::Presented { .. }, FrameEvent::DeviceFailure { code }) => Err(
                RendererError::Present { code },
            ),
            _ => vstd::pervasive::unreached(),
        }
    }
}

/// The engine after a step, ignoring the action or error the step produced.
pub open spec fn engine_after(engine: FrameEngine, event: FrameEvent) -> FrameEngine {
    match step_spec(engine, event) {
        Some((next, _)) => next,
        None => engine,
    }
}

/// The engine after one whole successful render cycle that acquired
/// `image_index`: begin, fence wait, image acquisition, recording,
/// submission, presentation.
pub open spec fn cycle_spec(engine: FrameEngine, image_index: u32) -> FrameEngine {
    let waiting = FrameEngine { phase: FramePhase::FenceWait, frame_number: engine.frame_number };
    let acquiring = engine_after(waiting, FrameEvent::Completed);
    let recording = engine_after(acquiring, FrameEvent::ImageReady { image_index });
    let submitted = engine_after(recording, FrameEvent::Completed);
    let presented = engine_after(submitted, FrameEvent::Completed);
    engine_after(presented, FrameEvent::Completed)
}

/// The engine after one successful render cycle per entry of `image_indices`,
/// in order.
pub open spec fn cycles_spec(engine: FrameEngine, image_indices: Seq<u32>) -> FrameEngine
    decreases image_indices.len(),
{
    if image_indices.len() == 0 {
        engine
    } else {
        cycles_spec(
            cycle_spec(engine, image_indices[0]),
            image_indices.subrange(1, image_indices.len() as int),
        )
    }
}

/// One successful render cycle returns the engine to `Idle` and advances the
/// cycle counter by exactly one, whichever image was acquired.
pub proof fn lemma_cycle_advances_frame(engine: FrameEngine, image_index: u32)
    requires
        engine.phase is Idle,
        engine.frame_number < u64::MAX,
    ensures
        cycle_spec(engine, image_index).phase is Idle,
        cycle_spec(engine, image_index).frame_number == engine.frame_number + 1,
{
}

/// A run of successful render cycles advances the cycle counter by exactly
/// the number of cycles and ends with the engine idle again. With a fresh
/// engine, whose counter starts at zero, the counter afterwards is exactly
/// the number of cycles run.
pub proof fn lemma_cycles_advance_frame(engine: FrameEngine, image_indices: Seq<u32>)
    requires
        engine.phase is Idle,
        engine.frame_number + image_indices.len() <= u64::MAX,
    ensures
        cycles_spec(engine, image_indices).phase is Idle,
        cycles_spec(engine, image_indices).frame_number == engine.frame_number
            + image_indices.len(),
    decreases image_indices.len(),
{
    if image_indices.len() > 0 {
        lemma_cycle_advances_frame(engine, image_indices[0]);
        lemma_cycles_advance_frame(
            cycle_spec(engine, image_indices[0]),
            image_indices.subrange(1, image_indices.len() as int),
        );
    }
}

/// A render cycle whose image acquisition runs out of its budget fails with
/// `FrameTimeout` and leaves the engine — the cycle counter included —
/// unchanged.
pub proof fn lemma_acquire_timeout_fails(engine: FrameEngine)
    requires
        engine.phase is ImageAcquire,
    ensures
        step_spec(engine, FrameEvent::TimedOut) == Some(
            (engine, Err::<FrameAction, RendererError>(RendererError::FrameTimeout)),
        ),
{
}

} // verus!
