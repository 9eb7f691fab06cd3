use threedge::control::{ControlError, LoopStep, RenderControl, StopAction};

#[test]
fn started_disabled_renders_nothing_until_enabled() {
    let mut control = RenderControl::new();
    assert_eq!(control.start(), Ok(()));
    let mut frames = 0;
    for _ in 0..5 {
        match control.next_step() {
            LoopStep::Render { .. } => frames += 1,
            step => assert_eq!(step, LoopStep::Wait),
        }
    }
    assert_eq!(frames, 0);
    control.enabled(true);
    assert_eq!(control.next_step(), LoopStep::Render { reset_stats: true });
    for _ in 0..5 {
        assert_eq!(control.next_step(), LoopStep::Render { reset_stats: false });
    }
}

#[test]
fn disable_then_enable_resumes_without_restart() {
    let mut control = RenderControl::new();
    assert_eq!(control.start(), Ok(()));
    control.enabled(true);
    assert_eq!(control.next_step(), LoopStep::Render { reset_stats: false });
    control.enabled(false);
    assert_eq!(control.next_step(), LoopStep::Wait);
    assert_eq!(control.next_step(), LoopStep::Wait);
    control.enabled(true);
    assert_eq!(control.next_step(), LoopStep::Render { reset_stats: true });
}

#[test]
fn stop_twice_joins_once() {
    let mut control = RenderControl::new();
    assert_eq!(control.start(), Ok(()));
    assert_eq!(control.stop(), StopAction::Join);
    assert_eq!(control.stop(), StopAction::Done);
    assert_eq!(control.next_step(), LoopStep::Exit);
}

#[test]
fn stop_before_start_joins_nothing() {
    let mut control = RenderControl::new();
    assert_eq!(control.stop(), StopAction::Done);
    assert_eq!(control.start(), Err(ControlError::AlreadyStarted));
}

#[test]
fn start_twice_is_refused() {
    let mut control = RenderControl::new();
    assert_eq!(control.start(), Ok(()));
    assert_eq!(control.start(), Err(ControlError::AlreadyStarted));
}

#[test]
fn render_failure_ends_the_loop() {
    let mut control = RenderControl::new();
    assert_eq!(control.start(), Ok(()));
    control.enabled(true);
    assert!(!control.errored());
    control.render_failed();
    assert!(control.errored());
    assert_eq!(control.next_step(), LoopStep::Exit);
}
