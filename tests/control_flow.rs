use iced_sctk::event_loop::control_flow::{
    dispatch_error_code, dispatch_plan, raw_os_err, start_cause, sticky_exit, ControlFlow,
    DispatchFailure, DispatchPlan, LoopState, Phase,
};
use iced_sctk::sctk_event::{StartCause, SurfaceUserRequest};

#[test]
fn exit_is_sticky() {
    let r = sticky_exit(ControlFlow::ExitWithCode(3), ControlFlow::Poll);
    assert_eq!(r, ControlFlow::ExitWithCode(3));
    let r = sticky_exit(ControlFlow::ExitWithCode(3), ControlFlow::ExitWithCode(0));
    assert_eq!(r, ControlFlow::ExitWithCode(3));
}

#[test]
fn callback_may_change_flow_before_exit() {
    assert_eq!(sticky_exit(ControlFlow::Poll, ControlFlow::Wait), ControlFlow::Wait);
    assert_eq!(sticky_exit(ControlFlow::Wait, ControlFlow::ExitWithCode(2)), ControlFlow::ExitWithCode(2));
}

#[test]
fn os_error_code_or_one() {
    assert_eq!(raw_os_err(Some(32)), 32);
    assert_eq!(raw_os_err(None), 1);
    assert_eq!(dispatch_error_code(DispatchFailure::Io(Some(104))), 104);
    assert_eq!(dispatch_error_code(DispatchFailure::Io(None)), 1);
    assert_eq!(dispatch_error_code(DispatchFailure::BadMessage), 1);
    assert_eq!(dispatch_error_code(DispatchFailure::Protocol), 1);
}

#[test]
fn dispatch_plans() {
    assert_eq!(dispatch_plan(ControlFlow::Poll, false, 10), DispatchPlan::Block(Some(0)));
    assert_eq!(dispatch_plan(ControlFlow::Wait, false, 10), DispatchPlan::Block(None));
    assert_eq!(dispatch_plan(ControlFlow::Wait, true, 10), DispatchPlan::Block(Some(0)));
    assert_eq!(dispatch_plan(ControlFlow::WaitUntil(25), false, 10), DispatchPlan::Block(Some(15)));
    assert_eq!(dispatch_plan(ControlFlow::WaitUntil(25), true, 10), DispatchPlan::Block(Some(0)));
    assert_eq!(dispatch_plan(ControlFlow::WaitUntil(5), false, 10), DispatchPlan::Block(Some(0)));
    assert_eq!(dispatch_plan(ControlFlow::ExitWithCode(7), false, 10), DispatchPlan::Exit(7));
}

#[test]
fn start_causes() {
    assert_eq!(start_cause(ControlFlow::Poll, false, 1, 2), StartCause::Poll);
    assert_eq!(
        start_cause(ControlFlow::Wait, false, 1, 2),
        StartCause::WaitCancelled { start: 1, requested_resume: None }
    );
    assert_eq!(
        start_cause(ControlFlow::WaitUntil(50), false, 1, 20),
        StartCause::WaitCancelled { start: 1, requested_resume: Some(50) }
    );
    assert_eq!(
        start_cause(ControlFlow::WaitUntil(50), false, 1, 50),
        StartCause::ResumeTimeReached { start: 1, requested_resume: 50 }
    );
}

#[test]
fn first_iteration_reports_init() {
    assert_eq!(start_cause(ControlFlow::Poll, true, 0, 0), StartCause::Init);
    assert_eq!(start_cause(ControlFlow::Wait, true, 0, 3), StartCause::Init);
}

#[test]
fn user_requests_coalesce() {
    let a = SurfaceUserRequest { redraw_requested: true, refresh_frame: false };
    let b = SurfaceUserRequest { redraw_requested: false, refresh_frame: true };
    let m = a.merge(b);
    assert!(m.redraw_requested && m.refresh_frame);
    assert!(b.needs_redraw());
    assert!(!SurfaceUserRequest::default().needs_redraw());
}

#[test]
fn phases_cycle_in_order_and_init_once() {
    let mut l = LoopState::new();
    let order = [
        Phase::Flush,
        Phase::DispatchPending,
        Phase::Wait,
        Phase::NewEvents,
        Phase::UserEvents,
        Phase::CompositorUpdates,
        Phase::Sink,
        Phase::MainEventsCleared,
        Phase::Redraws,
        Phase::RedrawEventsCleared,
    ];
    for p in order.iter() {
        assert_eq!(l.phase, *p);
        if *p == Phase::NewEvents {
            assert_eq!(l.start_cause(ControlFlow::Poll, 0, 0), StartCause::Init);
        }
        l.advance(false);
    }
    assert_eq!(l.phase, Phase::Flush);
    assert!(!l.first);
    l.advance(false);
    l.advance(false);
    l.advance(false);
    assert_eq!(l.start_cause(ControlFlow::Poll, 0, 0), StartCause::Poll);
}

#[test]
fn stop_while_waiting_ends_the_loop() {
    let mut l = LoopState::new();
    l.advance(false);
    l.advance(false);
    assert_eq!(l.phase, Phase::Wait);
    l.advance(true);
    assert_eq!(l.phase, Phase::LoopDestroyed);
    l.advance(false);
    assert_eq!(l.phase, Phase::Finished);
    l.advance(false);
    assert_eq!(l.phase, Phase::Finished);
}

#[test]
fn stop_outside_dispatch_is_ignored() {
    let mut l = LoopState::new();
    l.advance(true);
    assert_eq!(l.phase, Phase::DispatchPending);
}
