use clearframe::error::RendererError;
use clearframe::frame::{FrameAction, FrameEngine, FrameEvent, FRAME_BUDGET_NS};

#[test]
fn fresh_engine_is_idle_at_frame_zero() {
    let engine = FrameEngine::new();
    assert_eq!(engine.frame_number, 0);
    let mut engine = engine;
    let action = engine.begin_frame();
    assert_eq!(action, FrameAction::WaitFence { timeout_ns: FRAME_BUDGET_NS });
}

#[test]
fn one_cycle_walks_every_phase_and_counts_one_frame() {
    let mut engine = FrameEngine::new();
    let action = engine.begin_frame();
    assert_eq!(action, FrameAction::WaitFence { timeout_ns: 1_000_000_000 });
    let action = engine.step(FrameEvent::Completed).unwrap();
    assert_eq!(action, FrameAction::AcquireImage { timeout_ns: 1_000_000_000 });
    let action = engine.step(FrameEvent::ImageReady { image_index: 2 }).unwrap();
    assert_eq!(action, FrameAction::Record { image_index: 2, frame_number: 0 });
    let action = engine.step(FrameEvent::Completed).unwrap();
    assert_eq!(action, FrameAction::Submit { image_index: 2 });
    let action = engine.step(FrameEvent::Completed).unwrap();
    assert_eq!(action, FrameAction::Present { image_index: 2 });
    let action = engine.step(FrameEvent::Completed).unwrap();
    assert_eq!(action, FrameAction::Rest);
    assert_eq!(engine.frame_number, 1);
}

#[test]
fn n_successful_cycles_advance_the_counter_by_n() {
    let mut engine = FrameEngine::new();
    for cycle in 0u64..5 {
        assert_eq!(engine.frame_number, cycle);
        engine.begin_frame();
        engine.step(FrameEvent::Completed).unwrap();
        let action = engine.step(FrameEvent::ImageReady { image_index: 0 }).unwrap();
        // The recorded clear color is driven by the cycle counter.
        assert_eq!(action, FrameAction::Record { image_index: 0, frame_number: cycle });
        engine.step(FrameEvent::Completed).unwrap();
        engine.step(FrameEvent::Completed).unwrap();
        engine.step(FrameEvent::Completed).unwrap();
    }
    assert_eq!(engine.frame_number, 5);
}

#[test]
fn fence_timeout_fails_with_frame_timeout() {
    let mut engine = FrameEngine::new();
    engine.begin_frame();
    let outcome = engine.step(FrameEvent::TimedOut);
    assert_eq!(outcome, Err(RendererError::FrameTimeout));
    assert_eq!(engine.frame_number, 0);
}

#[test]
fn acquire_timeout_fails_and_leaves_the_counter_unchanged() {
    let mut engine = FrameEngine::new();
    // One successful cycle first, so the counter is non-trivial.
    engine.begin_frame();
    engine.step(FrameEvent::Completed).unwrap();
    engine.step(FrameEvent::ImageReady { image_index: 1 }).unwrap();
    engine.step(FrameEvent::Completed).unwrap();
    engine.step(FrameEvent::Completed).unwrap();
    engine.step(FrameEvent::Completed).unwrap();
    assert_eq!(engine.frame_number, 1);
    engine.begin_frame();
    engine.step(FrameEvent::Completed).unwrap();
    let outcome = engine.step(FrameEvent::TimedOut);
    assert_eq!(outcome, Err(RendererError::FrameTimeout));
    assert_eq!(engine.frame_number, 1);
}

#[test]
fn acquire_device_failure_wraps_the_code_as_present_error() {
    let mut engine = FrameEngine::new();
    engine.begin_frame();
    engine.step(FrameEvent::Completed).unwrap();
    let outcome = engine.step(FrameEvent::DeviceFailure { code: -4 });
    assert_eq!(outcome, Err(RendererError::Present { code: -4 }));
    assert_eq!(engine.frame_number, 0);
}

#[test]
fn recording_failure_wraps_the_code_as_submission_error() {
    let mut engine = FrameEngine::new();
    engine.begin_frame();
    engine.step(FrameEvent::Completed).unwrap();
    engine.step(FrameEvent::ImageReady { image_index: 0 }).unwrap();
    let outcome = engine.step(FrameEvent::DeviceFailure { code: -1 });
    assert_eq!(outcome, Err(RendererError::Submission { code: -1 }));
}

#[test]
fn submit_failure_wraps_the_code_as_submission_error() {
    let mut engine = FrameEngine::new();
    engine.begin_frame();
    engine.step(FrameEvent::Completed).unwrap();
    engine.step(FrameEvent::ImageReady { image_index: 0 }).unwrap();
    engine.step(FrameEvent::Completed).unwrap();
    let outcome = engine.step(FrameEvent::DeviceFailure { code: -2 });
    assert_eq!(outcome, Err(RendererError::Submission { code: -2 }));
}

#[test]
fn present_failure_wraps_the_code_as_present_error() {
    let mut engine = FrameEngine::new();
    engine.begin_frame();
    engine.step(FrameEvent::Completed).unwrap();
    engine.step(FrameEvent::ImageReady { image_index: 0 }).unwrap();
    engine.step(FrameEvent::Completed).unwrap();
    engine.step(FrameEvent::Completed).unwrap();
    let outcome = engine.step(FrameEvent::DeviceFailure { code: -1000001002 });
    assert_eq!(outcome, Err(RendererError::Present { code: -1000001002 }));
    assert_eq!(engine.frame_number, 0);
}

#[test]
fn failed_cycle_does_not_advance_the_phase() {
    let mut engine = FrameEngine::new();
    engine.begin_frame();
    engine.step(FrameEvent::Completed).unwrap();
    let before = engine.phase;
    let _ = engine.step(FrameEvent::TimedOut);
    assert_eq!(engine.phase, before);
}
