use clearframe::context::{message_forwarded, MessageCategory, MessageSeverity};
use clearframe::frame::{FrameAction, FrameEvent};
use clearframe::queue::QueueFamilyIndices;
use clearframe::renderer::Renderer;
use clearframe::swapchain::{
    plan_swapchain, Extent2d, SurfaceCapabilities, SurfaceFormat, SwapchainState,
};
use clearframe::teardown::TeardownStep;

fn sample_renderer() -> Renderer {
    let caps = SurfaceCapabilities {
        min_image_count: 2,
        max_image_count: 8,
        current_extent: Extent2d { width: 800, height: 600 },
        current_transform: 1,
    };
    let formats = vec![SurfaceFormat { format: 44, color_space: 0 }];
    let config = plan_swapchain(&caps, &formats, 0);
    let swapchain = SwapchainState::assemble(
        9000,
        config,
        vec![101u64, 102, 103],
        vec![201u64, 202, 203],
    );
    Renderer::new(QueueFamilyIndices { graphics: 0, transfer: 1 }, swapchain)
}

#[test]
fn renderer_starts_idle_at_frame_zero() {
    let renderer = sample_renderer();
    assert_eq!(renderer.frame_number(), 0);
    assert_eq!(renderer.queue_families, QueueFamilyIndices { graphics: 0, transfer: 1 });
}

#[test]
fn renderer_drives_a_full_cycle() {
    let mut renderer = sample_renderer();
    let action = renderer.begin_frame();
    assert_eq!(action, FrameAction::WaitFence { timeout_ns: 1_000_000_000 });
    renderer.step(FrameEvent::Completed).unwrap();
    renderer.step(FrameEvent::ImageReady { image_index: 1 }).unwrap();
    renderer.step(FrameEvent::Completed).unwrap();
    renderer.step(FrameEvent::Completed).unwrap();
    let action = renderer.step(FrameEvent::Completed).unwrap();
    assert_eq!(action, FrameAction::Rest);
    assert_eq!(renderer.frame_number(), 1);
}

#[test]
fn teardown_plan_is_the_same_before_and_after_rendering() {
    let mut renderer = sample_renderer();
    let before = renderer.teardown_plan();
    renderer.begin_frame();
    renderer.step(FrameEvent::Completed).unwrap();
    renderer.step(FrameEvent::ImageReady { image_index: 0 }).unwrap();
    renderer.step(FrameEvent::Completed).unwrap();
    renderer.step(FrameEvent::Completed).unwrap();
    renderer.step(FrameEvent::Completed).unwrap();
    let after = renderer.teardown_plan();
    assert_eq!(before, after);
    assert_eq!(after.len(), 9 + 3);
    assert_eq!(after[0], TeardownStep::WaitIdle);
    assert_eq!(after[5], TeardownStep::DestroyImageView { index: 0 });
    assert_eq!(after[11], TeardownStep::DestroyInstance);
}

#[test]
fn debug_sink_forwards_warnings_and_errors_only() {
    let severities = [
        MessageSeverity::Verbose,
        MessageSeverity::Info,
        MessageSeverity::Warning,
        MessageSeverity::Error,
    ];
    let categories = [
        MessageCategory::General,
        MessageCategory::Performance,
        MessageCategory::Validation,
    ];
    for severity in severities {
        for category in categories {
            let forwarded = message_forwarded(severity, category);
            let expected = matches!(severity, MessageSeverity::Warning | MessageSeverity::Error);
            assert_eq!(forwarded, expected);
        }
    }
}
