//! The teardown order.
//!
//! Teardown runs exactly once, when the caller shuts down. It first blocks
//! until the device is idle, then destroys every owned object, each before
//! the object it was created from: sync objects and the command pool, then
//! the image views, the swapchain, the device, the surface, and the instance
//! last. The order is a hard invariant of the underlying API, not a style
//! choice: destroying a device while a pool or swapchain still references it
//! is undefined behavior.

use vstd::prelude::*;

verus! {

/// One teardown step, to be executed in the order `teardown_order` gives.
/// The command pool implicitly frees the command buffer allocated from it.
#[derive(Clone, Copy, Debug, PartialEq, Eq, Structural)]
pub enum TeardownStep {
    /// Block until the device reports no outstanding work.
    WaitIdle,
    DestroyRenderSemaphore,
    DestroyPresentSemaphore,
    DestroyRenderFence,
    DestroyCommandPool,
    DestroyImageView { index: usize },
    DestroySwapchain,
    DestroyDevice,
    DestroySurface,
    DestroyInstance,
}

/// The image-view steps, one per view, in index order.
pub open spec fn view_steps(view_count: nat) -> Seq<TeardownStep> {
    Seq::new(view_count, |i: int| TeardownStep::DestroyImageView { index: i as usize })
}

/// The complete teardown order for a swapchain with `view_count` image
/// views. It does not depend on how many frames were rendered.
pub open spec fn teardown_order(view_count: nat) -> Seq<TeardownStep> {
    seq![
        TeardownStep::WaitIdle,
        TeardownStep::DestroyRenderSemaphore,
        TeardownStep::DestroyPresentSemaphore,
        TeardownStep::DestroyRenderFence,
        TeardownStep::DestroyCommandPool,
    ] + view_steps(view_count) + seq![
        TeardownStep::DestroySwapchain,
        TeardownStep::DestroyDevice,
        TeardownStep::DestroySurface,
        TeardownStep::DestroyInstance,
    ]
}

/// The steps that destroy an object created from the logical device. All of
/// them must run before the device itself is destroyed.
pub open spec fn device_owned(step: TeardownStep) -> bool {
    ||| step is DestroyRenderSemaphore
    ||| step is DestroyPresentSemaphore
    ||| step is DestroyRenderFence
    ||| step is DestroyCommandPool
    ||| step is DestroyImageView
    ||| step is DestroySwapchain
}

/// Build the teardown plan for a swapchain with `view_count` image views.
pub fn teardown_plan(view_count: usize) -> (steps: Vec<TeardownStep>)
    ensures
        steps@ == teardown_order(view_count as nat),
{
    let mut steps: Vec<TeardownStep> = Vec::new();
    steps.push(TeardownStep::WaitIdle);
    steps.push(TeardownStep::DestroyRenderSemaphore);
    steps.push(TeardownStep::DestroyPresentSemaphore);
    steps.push(TeardownStep::DestroyRenderFence);
    steps.push(TeardownStep::DestroyCommandPool);
    let mut i: usize = 0;
    while i < view_count
        invariant
            i <= view_count,
            steps@ == seq![
                TeardownStep::WaitIdle,
                TeardownStep::DestroyRenderSemaphore,
                TeardownStep::DestroyPresentSemaphore,
                TeardownStep::DestroyRenderFence,
                TeardownStep::DestroyCommandPool,
            ] + view_steps(i as nat),
        decreases view_count - i,
    {
        steps.push(TeardownStep::DestroyImageView { index: i });
        proof {
            assert(view_steps((i + 1) as nat) =~= view_steps(i as nat).push(
                TeardownStep::DestroyImageView { index: i },
            ));
        }
        i = i + 1;
    }
    steps.push(TeardownStep::DestroySwapchain);
    steps.push(TeardownStep::DestroyDevice);
    steps.push(TeardownStep::DestroySurface);
    steps.push(TeardownStep::DestroyInstance);
    proof {
        assert(steps@ =~= teardown_order(view_count as nat));
    }
    steps
}

/// The teardown order never uses an object after destroying what it depends
/// on: nothing is destroyed before the device is idle; everything the device
/// owns — sync objects, the command pool, every image view, the swapchain —
/// is destroyed before the device; every image view is destroyed before the
/// swapchain; and the surface and the device are destroyed before the
/// instance, which goes last.
pub proof fn lemma_teardown_respects_dependencies(view_count: nat)
    ensures
        teardown_order(view_count).len() == 9 + view_count,
        teardown_order(view_count)[0] is WaitIdle,
        forall|i: int, j: int|
            0 <= i < j < teardown_order(view_count).len() && teardown_order(view_count)[i]
                is DestroyDevice ==> !device_owned(teardown_order(view_count)[j]),
        forall|i: int, j: int|
            0 <= i < j < teardown_order(view_count).len() && teardown_order(view_count)[i]
                is DestroySwapchain ==> !(teardown_order(view_count)[j] is DestroyImageView),
        teardown_order(view_count)[teardown_order(view_count).len() - 1] is DestroyInstance,
        forall|j: int|
            0 <= j < teardown_order(view_count).len() - 1 ==> !(teardown_order(view_count)[j]
                is DestroyInstance),
{
    let order = teardown_order(view_count);
    assert(order[5 + view_count as int] is DestroySwapchain);
    assert(order[6 + view_count as int] is DestroyDevice);
    assert(order[7 + view_count as int] is DestroySurface);
    assert(order[8 + view_count as int] is DestroyInstance);
    assert forall|j: int| 0 <= j < order.len() && device_owned(order[j]) implies j < 6
        + view_count by {
        if 5 <= j < 5 + view_count {
            assert(order[j] is DestroyImageView);
        }
        if j == 6 + view_count || j == 7 + view_count || j == 8 + view_count {
            assert(!device_owned(order[j]));
        }
    }
    assert forall|j: int| 0 <= j < order.len() && order[j] is DestroyImageView implies j < 5
        + view_count by {
        if j >= 5 + view_count {
            assert(!(order[j] is DestroyImageView));
        }
    }
    assert forall|i: int|
        0 <= i < order.len() && order[i] is DestroyDevice implies i == 6 + view_count by {
        if i < 5 {
            assert(!(order[i] is DestroyDevice));
        } else if i < 5 + view_count {
            assert(order[i] is DestroyImageView);
        }
    }
    assert forall|i: int|
        0 <= i < order.len() && order[i] is DestroySwapchain implies i == 5 + view_count by {
        if i < 5 {
            assert(!(order[i] is DestroySwapchain));
        } else if i < 5 + view_count {
            assert(order[i] is DestroyImageView);
        }
    }
    assert forall|j: int| 0 <= j < order.len() - 1 implies !(order[j] is DestroyInstance) by {
        if j < 5 {
            assert(!(order[j] is DestroyInstance));
        } else if j < 5 + view_count {
            assert(order[j] is DestroyImageView);
        }
    }
}

} // verus!
