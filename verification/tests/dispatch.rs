//! Scenario tests for the interaction dispatcher.

use mand::camera::CameraState;
use mand::events::{ElementState, InputEvent, KeyCode, MouseButton};
use mand::plane::PlaneState;
use mand::viewer::{EventOutcome, MainState, Viewer};

fn click(state: ElementState, button: MouseButton) -> InputEvent {
    InputEvent::MouseClick { state, button }
}

fn key(state: ElementState, code: KeyCode) -> InputEvent {
    InputEvent::Keyboard { state, key: code }
}

#[test]
fn starts_in_navigate_mode() {
    let v = Viewer::new(2048, 2048);
    assert!(matches!(v.state, MainState::Camera));
    assert!(!v.marker_visible());
    assert_eq!(v.plane.button_pos.x, 1024);
    assert_eq!(v.plane.button_pos.y, 1024);
    assert_eq!(v.plane.button_rad, 100);
}

#[test]
fn mode_key_window_routes_to_exactly_one_controller() {
    let mut v = Viewer::new(2048, 2048);
    let w = 2048;
    let h = 2048;

    // Outside the mode-key window: pointer input drives the camera only.
    v.handle_event(w, h, InputEvent::MouseMove { x: 1024, y: 1024 });
    v.handle_event(w, h, click(ElementState::Pressed, MouseButton::Left));
    assert!(matches!(v.cam.state, CameraState::Pan));
    assert!(matches!(v.plane.state, PlaneState::Rest));
    assert_eq!(v.plane.mouse_pos.x, 0);
    v.handle_event(w, h, click(ElementState::Released, MouseButton::Left));
    assert!(matches!(v.cam.state, CameraState::Rest));

    // Between mode-key press and release: input drives the selector only.
    v.handle_event(w, h, key(ElementState::Pressed, KeyCode::Mode));
    assert!(matches!(v.state, MainState::Plane));
    assert!(v.marker_visible());
    let cam_before = (v.cam.state, v.cam.center, v.cam.scale, v.cam.anomalies);
    v.handle_event(w, h, InputEvent::MouseMove { x: 1024, y: 1024 });
    v.handle_event(w, h, click(ElementState::Pressed, MouseButton::Left));
    assert!(matches!(v.plane.state, PlaneState::Drag));
    v.handle_event(w, h, InputEvent::MouseMove { x: 1200, y: 900 });
    v.handle_event(w, h, click(ElementState::Released, MouseButton::Left));
    let cam_after = (v.cam.state, v.cam.center, v.cam.scale, v.cam.anomalies);
    assert_eq!(cam_before, cam_after);
    assert_eq!(v.plane.button_pos.x, 1200);
    assert_eq!(v.plane.button_pos.y, 2048 - 900);

    // After the release: back to the camera, selector untouched.
    v.handle_event(w, h, key(ElementState::Released, KeyCode::Mode));
    assert!(matches!(v.state, MainState::Camera));
    let plane_pos = v.plane.button_pos;
    v.handle_event(w, h, InputEvent::MouseMove { x: 10, y: 10 });
    v.handle_event(w, h, InputEvent::MouseScroll { delta: 10 });
    assert_eq!(v.cam.scale, 10100);
    assert_eq!(v.plane.button_pos.x, plane_pos.x);
    assert_eq!(v.plane.button_pos.y, plane_pos.y);
}

#[test]
fn quit_key_signals_termination_without_exiting() {
    let mut v = Viewer::new(2048, 2048);
    let r = v.handle_event(2048, 2048, key(ElementState::Pressed, KeyCode::Quit));
    assert!(matches!(r, EventOutcome::Quit));
    // Releasing the quit key, or any other key, does not quit.
    let r2 = v.handle_event(2048, 2048, key(ElementState::Released, KeyCode::Quit));
    assert!(matches!(r2, EventOutcome::Continue));
    let r3 = v.handle_event(2048, 2048, key(ElementState::Pressed, KeyCode::Other));
    assert!(matches!(r3, EventOutcome::Continue));
    // The dispatcher state is untouched either way.
    assert!(matches!(v.state, MainState::Camera));
}

#[test]
fn snapshot_hands_the_renderer_exact_fixed_point_values() {
    let mut v = Viewer::new(2048, 2048);
    let s = v.snapshot(2048, 2048);
    assert_eq!(s.transform.m00, 1000000);
    assert_eq!(s.transform.m11, 1000000);
    assert_eq!(s.transform.m22, 1000000);
    assert_eq!(s.transform.m01, 0);
    assert_eq!(s.transform.m02, 0);
    assert_eq!(s.parameter.x, 0);
    assert_eq!(s.parameter.y, 0);
    assert!(matches!(s.marker_style, mand::plane::MarkerStyle::Idle));
    assert_eq!(s.marker_segments, 50);
    assert_eq!(s.marker_vert_rad_micro, 97656);

    // Zoom once and take another snapshot: it reflects the live state.
    v.handle_event(2048, 2048, InputEvent::MouseScroll { delta: 10 });
    let s2 = v.snapshot(2048, 2048);
    assert_eq!(s2.transform.m00, 1010000);
    assert_eq!(s2.transform.m11, 1010000);
}

#[test]
fn other_keys_are_ignored() {
    let mut v = Viewer::new(2048, 2048);
    v.handle_event(2048, 2048, key(ElementState::Pressed, KeyCode::Other));
    v.handle_event(2048, 2048, key(ElementState::Released, KeyCode::Other));
    assert!(matches!(v.state, MainState::Camera));
    assert_eq!(v.cam.anomalies, 0);
    assert_eq!(v.plane.anomalies, 0);
}
