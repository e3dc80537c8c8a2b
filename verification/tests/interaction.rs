//! Scenario tests for the camera controller and the parameter selector.

use mand::camera::{Camera, CameraState, MICRO, SCALE_LIMIT, SCALE_ONE};
use mand::events::{ElementState, MouseButton};
use mand::plane::{MarkerStyle, Plane, PlaneState};

#[test]
fn press_release_without_move_keeps_center() {
    let mut cam = Camera::new();
    cam.handle_mouse_move(300, 200, 1000, 1000);
    cam.handle_mouse_click(ElementState::Pressed, MouseButton::Left);
    assert!(matches!(cam.state, CameraState::Pan));
    cam.handle_mouse_click(ElementState::Released, MouseButton::Left);
    assert!(matches!(cam.state, CameraState::Rest));
    assert_eq!(cam.center.x, 0);
    assert_eq!(cam.center.y, 0);
    assert_eq!(cam.pan_delta.x, 0);
    assert_eq!(cam.pan_delta.y, 0);
}

#[test]
fn pan_gesture_accumulates_exact_offset() {
    let mut cam = Camera::new();
    cam.handle_mouse_move(100, 100, 1000, 1000);
    cam.handle_mouse_click(ElementState::Pressed, MouseButton::Left);
    cam.handle_mouse_move(150, 80, 1000, 1000);
    // delta = old - new = (-50, 20); identity rotation, zoom 1:
    // pan = (-2 * 1.0 * -50 / 1000, 2 * 1.0 * 20 / 1000) = (0.1, 0.04).
    assert_eq!(cam.pan_delta.x, 100000);
    assert_eq!(cam.pan_delta.y, 40000);
    cam.handle_mouse_click(ElementState::Released, MouseButton::Left);
    assert_eq!(cam.center.x, 100000);
    assert_eq!(cam.center.y, 40000);
    assert_eq!(cam.pan_delta.x, 0);
    assert_eq!(cam.pan_delta.y, 0);
}

#[test]
fn tumble_quarter_turn_composes_exactly() {
    let mut cam = Camera::new();
    cam.handle_mouse_move(1000, 500, 1000, 1000);
    cam.handle_mouse_click(ElementState::Pressed, MouseButton::Right);
    assert!(matches!(cam.state, CameraState::Tumble));
    cam.handle_mouse_move(500, 0, 1000, 1000);
    // old direction points right of center, new direction points down
    // (after the doubling to half pixels): the relative rotation is a
    // quarter turn, reduced to components below the kept bound.
    assert_eq!(cam.angle_delta.re, 0);
    assert_eq!(cam.angle_delta.im, -62500);
    cam.handle_mouse_click(ElementState::Released, MouseButton::Right);
    assert_eq!(cam.angle.re, 0);
    assert_eq!(cam.angle.im, -62500);
    assert_eq!(cam.angle_delta.re, 1);
    assert_eq!(cam.angle_delta.im, 0);
}

#[test]
fn tumble_sequence_keeps_rotation_normalizable() {
    // Many tumble gestures in a row: the stored rotation must stay nonzero
    // and below the kept bound, so its normalized magnitude is always
    // exactly one.
    let mut cam = Camera::new();
    let stops = [
        (900, 500),
        (700, 900),
        (100, 700),
        (200, 100),
        (999, 499),
        (500, 999),
    ];
    let mut anchor = (1000i64, 500i64);
    for stop in stops.iter() {
        cam.handle_mouse_move(anchor.0, anchor.1, 1000, 1000);
        cam.handle_mouse_click(ElementState::Pressed, MouseButton::Right);
        cam.handle_mouse_move(stop.0, stop.1, 1000, 1000);
        cam.handle_mouse_click(ElementState::Released, MouseButton::Right);
        assert!(cam.angle.re != 0 || cam.angle.im != 0);
        assert!(cam.angle.re.abs() < 65536);
        assert!(cam.angle.im.abs() < 65536);
        anchor = *stop;
    }
}

#[test]
fn scroll_sequence_is_multiplicative_and_order_exact() {
    let mut cam = Camera::new();
    assert_eq!(cam.scale, SCALE_ONE);
    cam.handle_mouse_scroll(10);
    // 1.0 * 1.01 = 1.01
    assert_eq!(cam.scale, 10100);
    cam.handle_mouse_scroll(-10);
    // 1.01 * 0.99 = 0.9999, not 1.0
    assert_eq!(cam.scale, 9999);
}

#[test]
fn scroll_can_reach_zero_and_saturates() {
    let mut cam = Camera::new();
    cam.handle_mouse_scroll(-1000);
    // factor 1 - 1.0 = 0: the zoom collapses, as the unclamped rule says.
    assert_eq!(cam.scale, 0);
    cam.handle_mouse_scroll(500);
    assert_eq!(cam.scale, 0);

    let mut wide = Camera::new();
    wide.handle_mouse_scroll(1_000_000_000_000);
    // The exact product would pass the machine bound; it saturates there.
    assert_eq!(wide.scale, SCALE_LIMIT);
}

#[test]
fn identity_transform_on_square_viewport() {
    let cam = Camera::new();
    let m = cam.get_camera_matrix((800, 800));
    assert_eq!(m.m00, MICRO);
    assert_eq!(m.m01, 0);
    assert_eq!(m.m02, 0);
    assert_eq!(m.m10, 0);
    assert_eq!(m.m11, MICRO);
    assert_eq!(m.m12, 0);
    assert_eq!(m.m20, 0);
    assert_eq!(m.m21, 0);
    assert_eq!(m.m22, MICRO);
}

#[test]
fn aspect_correction_scales_x_only() {
    let cam = Camera::new();
    let m = cam.get_camera_matrix((1600, 800));
    assert_eq!(m.m00, 2 * MICRO);
    assert_eq!(m.m11, MICRO);
}

#[test]
fn transform_after_quarter_turn() {
    let mut cam = Camera::new();
    cam.handle_mouse_move(1000, 500, 1000, 1000);
    cam.handle_mouse_click(ElementState::Pressed, MouseButton::Right);
    cam.handle_mouse_move(500, 0, 1000, 1000);
    cam.handle_mouse_click(ElementState::Released, MouseButton::Right);
    let m = cam.get_camera_matrix((800, 800));
    // A quarter turn with cos 0, sin -1: rotation block [[0, 1], [-1, 0]].
    assert_eq!(m.m00, 0);
    assert_eq!(m.m01, MICRO);
    assert_eq!(m.m10, -MICRO);
    assert_eq!(m.m11, 0);
}

#[test]
fn transform_reflects_in_progress_pan() {
    let mut cam = Camera::new();
    cam.handle_mouse_move(100, 100, 1000, 1000);
    cam.handle_mouse_click(ElementState::Pressed, MouseButton::Left);
    cam.handle_mouse_move(150, 80, 1000, 1000);
    // Mid-gesture the matrix already carries the uncommitted pan.
    let m = cam.get_camera_matrix((1000, 1000));
    assert_eq!(m.m02, -100000);
    assert_eq!(m.m12, -40000);
}

#[test]
fn unexpected_camera_transition_is_counted_and_ignored() {
    let mut cam = Camera::new();
    cam.handle_mouse_click(ElementState::Released, MouseButton::Left);
    assert!(matches!(cam.state, CameraState::Rest));
    assert_eq!(cam.anomalies, 1);
    cam.handle_mouse_click(ElementState::Pressed, MouseButton::Left);
    cam.handle_mouse_click(ElementState::Pressed, MouseButton::Right);
    assert!(matches!(cam.state, CameraState::Pan));
    assert_eq!(cam.anomalies, 2);
}

#[test]
fn marker_hit_test_uses_squared_distance() {
    // radius 10, marker at (500, 500): squared distance 50 grabs,
    // squared distance 200 misses.
    let mut p = Plane::new(10, 1000, 1000);
    assert_eq!(p.button_pos.x, 500);
    assert_eq!(p.button_pos.y, 500);
    p.handle_mouse_move(505, 495, 1000, 1000);
    assert_eq!(p.mouse_pos.x, 505);
    assert_eq!(p.mouse_pos.y, 505);
    p.handle_mouse_click(ElementState::Pressed, MouseButton::Left);
    assert!(matches!(p.state, PlaneState::Drag));

    let mut q = Plane::new(10, 1000, 1000);
    q.handle_mouse_move(515, 485, 1000, 1000);
    q.handle_mouse_click(ElementState::Pressed, MouseButton::Left);
    assert!(matches!(q.state, PlaneState::Rest));
}

#[test]
fn release_outside_marker_still_ends_drag() {
    let mut p = Plane::new(10, 1000, 1000);
    p.handle_mouse_move(505, 495, 1000, 1000);
    p.handle_mouse_click(ElementState::Pressed, MouseButton::Left);
    assert!(matches!(p.state, PlaneState::Drag));
    // Drag far outside the marker radius, then release there.
    p.handle_mouse_move(900, 100, 1000, 1000);
    let dragged_to = p.button_pos;
    p.handle_mouse_click(ElementState::Released, MouseButton::Left);
    assert!(matches!(p.state, PlaneState::Rest));
    // The marker stays at the last pointer-derived position.
    assert_eq!(p.button_pos.x, dragged_to.x);
    assert_eq!(p.button_pos.y, dragged_to.y);
    assert_eq!(p.button_pos.x, 895);
    assert_eq!(p.button_pos.y, 895);
}

#[test]
fn drag_carries_marker_at_grab_offset() {
    let mut p = Plane::new(10, 1000, 1000);
    p.handle_mouse_move(505, 495, 1000, 1000);
    p.handle_mouse_click(ElementState::Pressed, MouseButton::Left);
    // grab offset = marker - pointer = (-5, -5)
    assert_eq!(p.mouse_offset.x, -5);
    assert_eq!(p.mouse_offset.y, -5);
    p.handle_mouse_move(600, 400, 1000, 1000);
    assert_eq!(p.button_pos.x, 595);
    assert_eq!(p.button_pos.y, 595);
}

#[test]
fn marker_style_follows_drag_state() {
    let mut p = Plane::new(10, 1000, 1000);
    assert!(matches!(p.get_marker_style(), MarkerStyle::Idle));
    p.handle_mouse_move(500, 500, 1000, 1000);
    p.handle_mouse_click(ElementState::Pressed, MouseButton::Left);
    assert!(matches!(p.get_marker_style(), MarkerStyle::Dragging));
    p.handle_mouse_click(ElementState::Released, MouseButton::Left);
    assert!(matches!(p.get_marker_style(), MarkerStyle::Idle));
}

#[test]
fn unexpected_selector_transition_is_counted_and_ignored() {
    let mut p = Plane::new(10, 1000, 1000);
    p.handle_mouse_click(ElementState::Released, MouseButton::Left);
    assert!(matches!(p.state, PlaneState::Rest));
    assert_eq!(p.anomalies, 1);
    p.handle_mouse_click(ElementState::Pressed, MouseButton::Right);
    assert_eq!(p.anomalies, 2);
}

#[test]
fn parameter_is_marker_normalized_by_extent() {
    let mut p = Plane::new(10, 2048, 2048);
    // Marker starts at the viewport center (1024, 1024): parameter origin.
    let c0 = p.get_parameter();
    assert_eq!(c0.x, 0);
    assert_eq!(c0.y, 0);
    // Drag it to (500, 500): (500 - 1024) / 1024 truncated, in millionths.
    p.handle_mouse_move(1024, 1024, 2048, 2048);
    p.handle_mouse_click(ElementState::Pressed, MouseButton::Left);
    p.handle_mouse_move(500, 2048 - 500, 2048, 2048);
    p.handle_mouse_click(ElementState::Released, MouseButton::Left);
    assert_eq!(p.button_pos.x, 500);
    assert_eq!(p.button_pos.y, 500);
    let c = p.get_parameter();
    assert_eq!(c.x, -511718);
    assert_eq!(c.y, -511718);
}

#[test]
fn selector_scroll_is_a_no_op() {
    let mut p = Plane::new(10, 1000, 1000);
    let before = p.button_pos;
    p.handle_mouse_scroll(250);
    assert_eq!(p.button_pos.x, before.x);
    assert_eq!(p.button_pos.y, before.y);
    assert!(matches!(p.state, PlaneState::Rest));
}

#[test]
fn fan_topology_is_a_closed_fan() {
    let p = Plane::new(100, 2048, 2048);
    let idx = p.get_marker_indices();
    assert_eq!(idx.len(), 150);
    // First triangle: outer vertices 0 and 1, center vertex 50.
    assert_eq!(idx[0], 0);
    assert_eq!(idx[1], 1);
    assert_eq!(idx[2], 50);
    // Last triangle wraps around to close the disc.
    assert_eq!(idx[147], 49);
    assert_eq!(idx[148], 0);
    assert_eq!(idx[149], 50);
}

#[test]
fn marker_radius_is_scaled_into_clip_space() {
    let p = Plane::new(100, 2048, 2048);
    // 2 * 100 / 2048 = 0.09765625, truncated in millionths.
    assert_eq!(p.vert_rad_micro, 97656);
}
