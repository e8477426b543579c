use window_host::device::{accent_red_color, light_gray_color, Color, Device, HandleKind};
use window_host::host::bootstrap;
use window_host::state::{FatalError, WindowState};

#[test]
fn ensure_is_idempotent_and_allocates_nothing() {
    let mut dev = Device::new();
    let mut state = bootstrap(1, &mut dev).expect("bootstrap");
    let before = state.resources().expect("resources after bootstrap");
    let slots_before = dev.slot_count();
    let live_before = dev.live_count();

    let r = state.ensure_resources(&mut dev);
    assert_eq!(r, Ok(()));

    let after = state.resources().expect("resources still installed");
    assert_eq!(after, before);
    assert_eq!(dev.slot_count(), slots_before);
    assert_eq!(dev.live_count(), live_before);
}

#[test]
fn ensure_without_factory_is_a_usage_error() {
    let mut dev = Device::new();
    let mut state = WindowState::new(1, 600, 400);
    let r = state.ensure_resources(&mut dev);
    assert_eq!(r, Err(FatalError::FactoryMissing));
    assert!(state.resources().is_none());
    assert_eq!(dev.slot_count(), 0);
}

#[test]
fn factory_creation_failure_is_fatal() {
    let mut dev = Device::new();
    dev.script_factory_outcome(true);
    let mut state = WindowState::new(1, 600, 400);
    let r = state.create_factory(&mut dev);
    assert_eq!(r, Err(FatalError::FactoryCreationFailed));
    assert!(state.factory().is_none());
    assert_eq!(dev.live_count(), 0);
}

#[test]
fn render_target_failure_installs_nothing() {
    let mut dev = Device::new();
    let mut state = WindowState::new(1, 600, 400);
    state.create_factory(&mut dev).expect("factory");
    dev.script_render_target_outcome(true);
    let live_before = dev.live_count();

    let r = state.ensure_resources(&mut dev);
    assert_eq!(r, Err(FatalError::RenderTargetCreationFailed));
    assert!(state.resources().is_none());
    assert_eq!(dev.live_count(), live_before);
}

#[test]
fn first_brush_failure_releases_render_target() {
    let mut dev = Device::new();
    let mut state = WindowState::new(1, 600, 400);
    state.create_factory(&mut dev).expect("factory");
    dev.script_brush_outcome(true);
    let live_before = dev.live_count();

    let r = state.ensure_resources(&mut dev);
    assert_eq!(r, Err(FatalError::BrushCreationFailed));
    assert!(state.resources().is_none());
    assert_eq!(dev.live_count(), live_before);
}

#[test]
fn second_brush_failure_releases_the_partial_set() {
    let mut dev = Device::new();
    let mut state = WindowState::new(1, 600, 400);
    state.create_factory(&mut dev).expect("factory");
    dev.script_brush_outcome(false);
    dev.script_brush_outcome(true);
    let live_before = dev.live_count();
    let slots_before = dev.slot_count();

    let r = state.ensure_resources(&mut dev);
    assert_eq!(r, Err(FatalError::BrushCreationFailed));
    assert!(state.resources().is_none());
    assert_eq!(dev.live_count(), live_before);
    // The render target and the first brush were allocated, then released.
    assert_eq!(dev.slot_count(), slots_before + 2);
}

#[test]
fn release_all_tears_everything_down_exactly_once() {
    let mut dev = Device::new();
    let mut state = bootstrap(1, &mut dev).expect("bootstrap");
    assert!(dev.live_count() > 0);

    let first = state.release_all(&mut dev);
    assert_eq!(first, Ok(()));
    assert!(state.resources().is_none());
    assert!(state.factory().is_none());
    assert_eq!(dev.live_count(), 0);

    let second = state.release_all(&mut dev);
    assert_eq!(second, Err(FatalError::FactoryAlreadyReleased));
}

#[test]
fn release_resources_is_idempotent() {
    let mut dev = Device::new();
    let mut state = bootstrap(1, &mut dev).expect("bootstrap");
    state.release_resources(&mut dev);
    assert!(state.resources().is_none());
    let live_after_first = dev.live_count();
    state.release_resources(&mut dev);
    assert!(state.resources().is_none());
    assert_eq!(dev.live_count(), live_after_first);
}

#[test]
fn bootstrap_builds_the_full_set() {
    let mut dev = Device::new();
    let state = bootstrap(7, &mut dev).expect("bootstrap");
    assert_eq!(state.window(), 7);
    assert_eq!(state.client_width(), 600);
    assert_eq!(state.client_height(), 400);
    assert!(state.factory().is_some());
    let rs = state.resources().expect("resources");
    assert_eq!(
        dev.slot(rs.render_target),
        Some(HandleKind::RenderTarget { window: 7, width: 600, height: 400 })
    );
    assert_eq!(
        dev.slot(rs.brush_primary),
        Some(HandleKind::Brush { target: rs.render_target, color: light_gray_color() })
    );
    assert_eq!(
        dev.slot(rs.brush_secondary),
        Some(HandleKind::Brush { target: rs.render_target, color: accent_red_color() })
    );
    // 1 factory + 1 render target + 2 brushes.
    assert_eq!(dev.live_count(), 4);
}

#[test]
fn brush_colors_are_the_fixed_ones() {
    assert_eq!(light_gray_color(), Color { r: 745, g: 823, b: 863, a: 1000 });
    assert_eq!(accent_red_color(), Color { r: 941, g: 353, b: 392, a: 1000 });
}
