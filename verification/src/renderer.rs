//! The renderer aggregate: the single root of ownership.
//!
//! The renderer owns the verified state of the backend — the resolved queue
//! families, the swapchain, and the frame engine. Every GPU object's lifetime
//! is bounded by the renderer's: rendering drives the frame engine one action
//! at a time, and shutdown follows the renderer's teardown plan.

use vstd::prelude::*;
use crate::error::RendererError;
use crate::frame::{step_spec, FrameAction, FrameEngine, FrameEvent};
use crate::queue::QueueFamilyIndices;
use crate::swapchain::SwapchainState;
use crate::teardown;
use crate::teardown::TeardownStep;

verus! {

/// The aggregate owner of the backend's verified state. Constructed once the
/// device, queues and swapchain exist; from then on it is the only place the
/// frame counter and cycle phase live.
#[derive(Debug)]
pub struct Renderer {
    pub queue_families: QueueFamilyIndices,
    pub swapchain: SwapchainState,
    pub frame: FrameEngine,
}

impl Renderer {
    /// Well-formedness of the aggregate: the swapchain pairs one view with
    /// every image.
    pub open spec fn wf(&self) -> bool {
        self.swapchain.wf()
    }

    /// Bring up the renderer over an already-created swapchain: no cycle in
    /// flight and the frame counter at zero.
    pub fn new(queue_families: QueueFamilyIndices, swapchain: SwapchainState) -> (r: Renderer)
        requires
            swapchain.wf(),
        ensures
            r.wf(),
            r.queue_families == queue_families,
            r.swapchain == swapchain,
            r.frame.phase is Idle,
            r.frame.frame_number == 0,
    {
        Renderer { queue_families, swapchain, frame: FrameEngine::new() }
    }

    /// Begin a render cycle; see [`FrameEngine::begin_frame`]. Everything but
    /// the frame engine is untouched.
    pub fn begin_frame(&mut self) -> (action: FrameAction)
        requires
            old(self).frame.phase is Idle,
        ensures
            final(self).frame.phase is FenceWait,
            final(self).frame.frame_number == old(self).frame.frame_number,
            action == (FrameAction::WaitFence { timeout_ns: crate::frame::FRAME_BUDGET_NS }),
            final(self).queue_families == old(self).queue_families,
            final(self).swapchain == old(self).swapchain,
    {
        self.frame.begin_frame()
    }

    /// Feed back the outcome of the last action; see [`FrameEngine::step`].
    /// Everything but the frame engine is untouched.
    pub fn step(&mut self, event: FrameEvent) -> (r: Result<FrameAction, RendererError>)
        requires
            step_spec(old(self).frame, event) is Some,
            (old(self).frame.phase is Presented && event is Completed) ==> old(
                self,
            ).frame.frame_number < u64::MAX,
        ensures
            step_spec(old(self).frame, event) == Some((final(self).frame, r)),
            final(self).queue_families == old(self).queue_families,
            final(self).swapchain == old(self).swapchain,
    {
        self.frame.step(event)
    }

    /// How many render cycles have completed since construction.
    pub fn frame_number(&self) -> (n: u64)
        ensures
            n == self.frame.frame_number,
    {
        self.frame.frame_number
    }

    /// The teardown plan for everything the renderer owns, in dependency
    /// order; independent of how many frames were rendered.
    pub fn teardown_plan(&self) -> (steps: Vec<TeardownStep>)
        ensures
            steps@ == teardown::teardown_order(self.swapchain.image_views@.len()),
    {
        teardown::teardown_plan(self.swapchain.image_views.len())
    }
}

} // verus!
