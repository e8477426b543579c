use window_host::device::{clear_white_color, Device, EndDrawCode, HandleKind};
use window_host::dispatch::{DispatchOutcome, Event};
use window_host::host::{bootstrap, run_events};
use window_host::state::{FatalError, WindowState};

#[test]
fn paint_draws_and_keeps_the_resources() {
    let mut dev = Device::new();
    let mut state = bootstrap(1, &mut dev).expect("bootstrap");
    let before = state.resources().expect("resources");

    let r = state.dispatch(&mut dev, Event::Paint);
    assert_eq!(r, Ok(DispatchOutcome::Handled));
    assert_eq!(state.resources(), Some(before));
    assert_eq!(dev.last_clear_color(), Some(clear_white_color()));
    assert!(!dev.is_drawing());
}

#[test]
fn device_loss_releases_then_rebuilds_fresh() {
    let mut dev = Device::new();
    let mut state = bootstrap(1, &mut dev).expect("bootstrap");
    let lost = state.resources().expect("resources");

    dev.script_end_draw_code(EndDrawCode::RecreateTarget);
    let first = state.dispatch(&mut dev, Event::Paint);
    assert_eq!(first, Ok(DispatchOutcome::Handled));
    assert!(state.resources().is_none());
    assert_eq!(dev.slot(lost.render_target), None);
    assert_eq!(dev.slot(lost.brush_primary), None);
    assert_eq!(dev.slot(lost.brush_secondary), None);

    let second = state.dispatch(&mut dev, Event::Paint);
    assert_eq!(second, Ok(DispatchOutcome::Handled));
    let rebuilt = state.resources().expect("rebuilt resources");
    assert_ne!(rebuilt.render_target, lost.render_target);
    assert_ne!(rebuilt.brush_primary, lost.brush_primary);
    assert_ne!(rebuilt.brush_secondary, lost.brush_secondary);
    assert!(dev.slot(rebuilt.render_target).is_some());
}

#[test]
fn other_end_draw_failure_keeps_the_resources() {
    let mut dev = Device::new();
    let mut state = bootstrap(1, &mut dev).expect("bootstrap");
    let before = state.resources().expect("resources");

    dev.script_end_draw_code(EndDrawCode::OtherFailure);
    let r = state.dispatch(&mut dev, Event::Paint);
    assert_eq!(r, Ok(DispatchOutcome::Handled));
    assert_eq!(state.resources(), Some(before));
}

#[test]
fn resize_without_resources_is_a_safe_no_op() {
    let mut dev = Device::new();
    let mut state = WindowState::new(1, 600, 400);
    let slots_before = dev.slot_count();

    let r = state.dispatch(&mut dev, Event::Resize { width: 800, height: 300 });
    assert_eq!(r, Ok(DispatchOutcome::Handled));
    assert!(state.resources().is_none());
    assert_eq!(dev.slot_count(), slots_before);
    assert_eq!(state.client_width(), 800);
    assert_eq!(state.client_height(), 300);
}

#[test]
fn resize_with_resources_resizes_the_render_target() {
    let mut dev = Device::new();
    let mut state = bootstrap(1, &mut dev).expect("bootstrap");
    let rs = state.resources().expect("resources");
    let slots_before = dev.slot_count();

    let r = state.dispatch(&mut dev, Event::Resize { width: 800, height: 300 });
    assert_eq!(r, Ok(DispatchOutcome::Handled));
    assert_eq!(state.resources(), Some(rs));
    assert_eq!(dev.slot_count(), slots_before);
    assert_eq!(
        dev.slot(rs.render_target),
        Some(HandleKind::RenderTarget { window: 1, width: 800, height: 300 })
    );
}

#[test]
fn check_probe_validates_the_integrity_tag() {
    let mut dev = Device::new();
    let mut good = WindowState::new(1, 600, 400);
    assert_eq!(good.dispatch(&mut dev, Event::Check), Ok(DispatchOutcome::Handled));

    let mut bad = WindowState::with_tag(1, 600, 400, 0);
    assert_eq!(bad.dispatch(&mut dev, Event::Check), Err(FatalError::IntegrityMismatch));
}

#[test]
fn destroy_requests_loop_exit_and_others_are_forwarded() {
    let mut dev = Device::new();
    let mut state = WindowState::new(1, 600, 400);
    assert_eq!(state.dispatch(&mut dev, Event::Destroy), Ok(DispatchOutcome::QuitRequested));
    assert_eq!(state.dispatch(&mut dev, Event::Create), Ok(DispatchOutcome::Handled));
    assert_eq!(state.dispatch(&mut dev, Event::MouseMove), Ok(DispatchOutcome::Handled));
    assert_eq!(state.dispatch(&mut dev, Event::Other), Ok(DispatchOutcome::Forwarded));
}

#[test]
fn full_window_lifetime_scenario() {
    let mut dev = Device::new();
    let mut state = bootstrap(9, &mut dev).expect("bootstrap");
    let rs = state.resources().expect("resources");
    assert_eq!(
        dev.slot(rs.render_target),
        Some(HandleKind::RenderTarget { window: 9, width: 600, height: 400 })
    );

    let events = vec![
        Event::Paint,
        Event::Resize { width: 800, height: 300 },
        Event::MouseMove,
        Event::Destroy,
    ];
    let quit = run_events(&mut state, &mut dev, &events);
    assert_eq!(quit, Ok(true));

    // Same handles, resized render target, no extra brushes.
    assert_eq!(state.resources(), Some(rs));
    assert_eq!(
        dev.slot(rs.render_target),
        Some(HandleKind::RenderTarget { window: 9, width: 800, height: 300 })
    );
    assert_eq!(dev.live_count(), 4);

    let teardown = state.release_all(&mut dev);
    assert_eq!(teardown, Ok(()));
    assert_eq!(dev.live_count(), 0);
    assert!(state.resources().is_none());
    assert!(state.factory().is_none());
}

#[test]
fn pump_without_destroy_runs_out_of_events() {
    let mut dev = Device::new();
    let mut state = bootstrap(1, &mut dev).expect("bootstrap");
    let events = vec![Event::Paint, Event::MouseMove];
    assert_eq!(run_events(&mut state, &mut dev, &events), Ok(false));
}

#[test]
fn pump_stops_at_a_fatal_error() {
    let mut dev = Device::new();
    let mut state = WindowState::with_tag(1, 600, 400, 5);
    let events = vec![Event::MouseMove, Event::Check, Event::Destroy];
    assert_eq!(
        run_events(&mut state, &mut dev, &events),
        Err(FatalError::IntegrityMismatch)
    );
}
