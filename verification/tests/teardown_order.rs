use clearframe::teardown::{teardown_plan, TeardownStep};

#[test]
fn plan_waits_for_idle_then_destroys_in_reverse_dependency_order() {
    let plan = teardown_plan(2);
    assert_eq!(
        plan,
        vec![
            TeardownStep::WaitIdle,
            TeardownStep::DestroyRenderSemaphore,
            TeardownStep::DestroyPresentSemaphore,
            TeardownStep::DestroyRenderFence,
            TeardownStep::DestroyCommandPool,
            TeardownStep::DestroyImageView { index: 0 },
            TeardownStep::DestroyImageView { index: 1 },
            TeardownStep::DestroySwapchain,
            TeardownStep::DestroyDevice,
            TeardownStep::DestroySurface,
            TeardownStep::DestroyInstance,
        ]
    );
}

#[test]
fn plan_without_views_still_ends_with_the_instance() {
    let plan = teardown_plan(0);
    assert_eq!(plan.len(), 9);
    assert_eq!(plan[0], TeardownStep::WaitIdle);
    assert_eq!(plan[8], TeardownStep::DestroyInstance);
    assert!(!plan.iter().any(|s| matches!(s, TeardownStep::DestroyImageView { .. })));
}

#[test]
fn every_device_owned_object_goes_before_the_device() {
    let plan = teardown_plan(4);
    let device_at = plan
        .iter()
        .position(|s| *s == TeardownStep::DestroyDevice)
        .unwrap();
    for (at, step) in plan.iter().enumerate() {
        let owned = matches!(
            step,
            TeardownStep::DestroyRenderSemaphore
                | TeardownStep::DestroyPresentSemaphore
                | TeardownStep::DestroyRenderFence
                | TeardownStep::DestroyCommandPool
                | TeardownStep::DestroyImageView { .. }
                | TeardownStep::DestroySwapchain
        );
        if owned {
            assert!(at < device_at);
        }
    }
}
