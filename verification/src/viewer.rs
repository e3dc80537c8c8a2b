//! The interaction dispatcher: owns the camera controller and the
//! parameter selector, holds the active mode, routes every incoming event
//! to exactly one of the two, and produces the per-frame snapshot the
//! renderer consumes.  A press of the mode key routes input to the
//! selector until its release (momentary, not a toggle-lock); a press of
//! the quit key signals termination to the caller instead of exiting.

use vstd::prelude::*;
use crate::camera::{cam_click_step, cam_init, cam_matrix, cam_move_step, cam_scroll_step, cam_wf,
    lemma_cam_click_wf, lemma_cam_move_wf, lemma_cam_scroll_wf, Camera, CameraMatrix};
use crate::events::{ElementState, InputEvent, KeyCode, MouseButton};
use crate::fixed::V2;
use crate::plane::{lemma_plane_click_wf, lemma_plane_move_wf, plane_click_step, plane_move_step,
    plane_parameter, plane_style, plane_wf, MarkerStyle, Plane, PlaneState, SEGMENTS};

verus! {

/// Hit-test radius the marker is built with, in pixels.
pub const MARKER_RADIUS: i64 = 100;

/// Which controller receives input.
#[derive(Clone, Copy, PartialEq, Eq, Structural, Debug)]
pub enum MainState {
    /// Navigate: input goes to the camera.
    Camera,
    /// Select-parameter: input goes to the marker selector.
    Plane,
}

/// What the frame loop should do after an event.
#[derive(Clone, Copy, PartialEq, Eq, Structural, Debug)]
pub enum EventOutcome {
    Continue,
    Quit,
}

/// The dispatcher and both controllers.
pub struct Viewer {
    pub state: MainState,
    pub cam: Camera,
    pub plane: Plane,
}

/// Everything the renderer needs for one frame.
pub struct Snapshot {
    /// The view transform, entries in millionths.
    pub transform: CameraMatrix,
    /// The complex rendering parameter, components in millionths.
    pub parameter: V2,
    /// Marker styling for the overlay.
    pub marker_style: MarkerStyle,
    /// Marker radius in millionths of a clip-space unit.
    pub marker_vert_rad_micro: i64,
    /// Number of outer vertices of the marker fan.
    pub marker_segments: u32,
}

/// Well-formed viewer: both controllers well-formed.
pub open spec fn viewer_wf(v: Viewer) -> bool {
    cam_wf(v.cam) && plane_wf(v.plane)
}

/// Does the event press the quit key?
pub open spec fn is_quit(e: InputEvent) -> bool {
    e == (InputEvent::Keyboard { state: ElementState::Pressed, key: KeyCode::Quit })
}

/// Is the event a keyboard event (the only kind that can switch modes)?
pub open spec fn is_keyboard(e: InputEvent) -> bool {
    e matches InputEvent::Keyboard { .. }
}

/// One camera-side step for a pointer event; keyboard events leave the
/// camera alone.
pub open spec fn cam_event_step(c: Camera, e: InputEvent, w: u32, h: u32) -> Camera {
    match e {
        InputEvent::MouseClick { state, button } => cam_click_step(c, state, button),
        InputEvent::MouseMove { x, y } => cam_move_step(c, x, y, w, h),
        InputEvent::MouseScroll { delta } => cam_scroll_step(c, delta),
        InputEvent::Keyboard { .. } => c,
    }
}

/// One selector-side step for a pointer event; scroll is the selector's
/// reserved no-op, keyboard events leave it alone.
pub open spec fn plane_event_step(p: Plane, e: InputEvent, w: u32, h: u32) -> Plane {
    match e {
        InputEvent::MouseClick { state, button } => plane_click_step(p, state, button),
        InputEvent::MouseMove { x, y } => plane_move_step(p, x, y, w, h),
        InputEvent::MouseScroll { .. } => p,
        InputEvent::Keyboard { .. } => p,
    }
}

/// One dispatch step: keyboard events drive the mode, every other event
/// goes to the controller the current mode names.
pub open spec fn viewer_step(v: Viewer, e: InputEvent, w: u32, h: u32) -> Viewer {
    match e {
        InputEvent::Keyboard { state, key } => {
            if state == ElementState::Pressed && key == KeyCode::Mode {
                Viewer { state: MainState::Plane, ..v }
            } else if state == ElementState::Released && key == KeyCode::Mode {
                Viewer { state: MainState::Camera, ..v }
            } else {
                v
            }
        },
        _ => {
            if v.state == MainState::Camera {
                Viewer { cam: cam_event_step(v.cam, e, w, h), ..v }
            } else {
                Viewer { plane: plane_event_step(v.plane, e, w, h), ..v }
            }
        },
    }
}

/// Dispatching a whole sequence of events, first event first.
pub open spec fn viewer_run_steps(v: Viewer, events: Seq<InputEvent>, w: u32, h: u32) -> Viewer
    decreases events.len(),
{
    if events.len() == 0 {
        v
    } else {
        viewer_run_steps(viewer_step(v, events[0], w, h), events.drop_first(), w, h)
    }
}

/// A whole sequence of camera-side steps.
pub open spec fn cam_run_steps(c: Camera, events: Seq<InputEvent>, w: u32, h: u32) -> Camera
    decreases events.len(),
{
    if events.len() == 0 {
        c
    } else {
        cam_run_steps(cam_event_step(c, events[0], w, h), events.drop_first(), w, h)
    }
}

/// A whole sequence of selector-side steps.
pub open spec fn plane_run_steps(p: Plane, events: Seq<InputEvent>, w: u32, h: u32) -> Plane
    decreases events.len(),
{
    if events.len() == 0 {
        p
    } else {
        plane_run_steps(plane_event_step(p, events[0], w, h), events.drop_first(), w, h)
    }
}

/// One dispatch step preserves well-formedness of both controllers.
pub proof fn lemma_viewer_step_wf(v: Viewer, e: InputEvent, w: u32, h: u32)
    requires
        viewer_wf(v),
    ensures
        viewer_wf(viewer_step(v, e, w, h)),
{
    match e {
        InputEvent::MouseClick { state, button } => {
            lemma_cam_click_wf(v.cam, state, button);
            lemma_plane_click_wf(v.plane, state, button);
        },
        InputEvent::MouseMove { x, y } => {
            lemma_cam_move_wf(v.cam, x, y, w, h);
            lemma_plane_move_wf(v.plane, x, y, w, h);
        },
        InputEvent::MouseScroll { delta } => {
            lemma_cam_scroll_wf(v.cam, delta);
        },
        InputEvent::Keyboard { .. } => {},
    }
}

/// Law: any sequence of input events keeps both controllers well-formed.
/// In particular the camera's committed and in-progress rotations stay
/// nonzero and bounded after any sequence of tumble gestures — the exact
/// counterpart of a unit rotation staying at magnitude one, since a stored
/// rotation stands for its normalized direction.
pub proof fn lemma_run_steps_wf(v: Viewer, events: Seq<InputEvent>, w: u32, h: u32)
    requires
        viewer_wf(v),
    ensures
        viewer_wf(viewer_run_steps(v, events, w, h)),
    decreases events.len(),
{
    if events.len() > 0 {
        lemma_viewer_step_wf(v, events[0], w, h);
        lemma_run_steps_wf(viewer_step(v, events[0], w, h), events.drop_first(), w, h);
    }
}

/// Law, Navigate half: while the mode is Navigate and no keyboard event
/// arrives, every event goes to the camera and none reaches the selector.
pub proof fn lemma_navigate_routes_to_camera(v: Viewer, events: Seq<InputEvent>, w: u32, h: u32)
    requires
        v.state == MainState::Camera,
        forall|i: int| 0 <= i < events.len() ==> !is_keyboard(events[i]),
    ensures
        viewer_run_steps(v, events, w, h).state == MainState::Camera,
        viewer_run_steps(v, events, w, h).plane == v.plane,
        viewer_run_steps(v, events, w, h).cam == cam_run_steps(v.cam, events, w, h),
    decreases events.len(),
{
    if events.len() > 0 {
        assert(!is_keyboard(events[0]));
        let v1 = viewer_step(v, events[0], w, h);
        assert(forall|i: int|
            0 <= i < events.drop_first().len() ==> !is_keyboard(#[trigger] events.drop_first()[i]));
        lemma_navigate_routes_to_camera(v1, events.drop_first(), w, h);
    }
}

/// Law, SelectParameter half: while the mode key is held and no keyboard
/// event arrives, every event goes to the selector and none reaches the
/// camera.
pub proof fn lemma_select_routes_to_plane(v: Viewer, events: Seq<InputEvent>, w: u32, h: u32)
    requires
        v.state == MainState::Plane,
        forall|i: int| 0 <= i < events.len() ==> !is_keyboard(events[i]),
    ensures
        viewer_run_steps(v, events, w, h).state == MainState::Plane,
        viewer_run_steps(v, events, w, h).cam == v.cam,
        viewer_run_steps(v, events, w, h).plane == plane_run_steps(v.plane, events, w, h),
    decreases events.len(),
{
    if events.len() > 0 {
        assert(!is_keyboard(events[0]));
        let v1 = viewer_step(v, events[0], w, h);
        assert(forall|i: int|
            0 <= i < events.drop_first().len() ==> !is_keyboard(#[trigger] events.drop_first()[i]));
        lemma_select_routes_to_plane(v1, events.drop_first(), w, h);
    }
}

impl Viewer {
    /// A viewer in Navigate mode, camera at rest, marker centered.
    pub fn new(width: u32, height: u32) -> (v: Viewer)
        requires
            width >= 1,
            height >= 1,
        ensures
            viewer_wf(v),
            v.state == MainState::Camera,
            v.cam == cam_init(),
            v.plane.state == PlaneState::Rest,
            v.plane.button_pos == (V2 {
                x: (width as int / 2) as i64,
                y: (height as int / 2) as i64,
            }),
            v.plane.button_rad == MARKER_RADIUS,
    {
        Viewer {
            state: MainState::Camera,
            cam: Camera::new(),
            plane: Plane::new(MARKER_RADIUS, width, height),
        }
    }

    /// Dispatch one event: keyboard events drive the mode and the quit
    /// signal, everything else goes to the active controller.
    pub fn handle_event(&mut self, target_width: u32, target_height: u32, event: InputEvent) -> (r:
        EventOutcome)
        requires
            viewer_wf(*old(self)),
            target_width >= 1,
            target_height >= 1,
        ensures
            viewer_wf(*final(self)),
            *final(self) == viewer_step(*old(self), event, target_width, target_height),
            (r == EventOutcome::Quit) <==> is_quit(event),
    {
        proof {
            lemma_viewer_step_wf(*old(self), event, target_width, target_height);
        }
        match event {
            InputEvent::Keyboard { state, key } => {
                match (state, key) {
                    (ElementState::Pressed, KeyCode::Mode) => {
                        self.state = MainState::Plane;
                        EventOutcome::Continue
                    },
                    (ElementState::Released, KeyCode::Mode) => {
                        self.state = MainState::Camera;
                        EventOutcome::Continue
                    },
                    (ElementState::Pressed, KeyCode::Quit) => EventOutcome::Quit,
                    _ => EventOutcome::Continue,
                }
            },
            InputEvent::MouseClick { state, button } => {
                match self.state {
                    MainState::Camera => self.cam.handle_mouse_click(state, button),
                    MainState::Plane => self.plane.handle_mouse_click(state, button),
                }
                EventOutcome::Continue
            },
            InputEvent::MouseMove { x, y } => {
                match self.state {
                    MainState::Camera => self.cam.handle_mouse_move(
                        x,
                        y,
                        target_width,
                        target_height,
                    ),
                    MainState::Plane => self.plane.handle_mouse_move(
                        x,
                        y,
                        target_width,
                        target_height,
                    ),
                }
                EventOutcome::Continue
            },
            InputEvent::MouseScroll { delta } => {
                match self.state {
                    MainState::Camera => self.cam.handle_mouse_scroll(delta),
                    MainState::Plane => self.plane.handle_mouse_scroll(delta),
                }
                EventOutcome::Continue
            },
        }
    }

    /// The per-frame snapshot: transform, parameter, and marker data, the
    /// sole output handed to the renderer.
    pub fn snapshot(&self, target_width: u32, target_height: u32) -> (s: Snapshot)
        requires
            viewer_wf(*self),
            target_width >= 1,
            target_height >= 1,
        ensures
            s.transform == cam_matrix(self.cam, target_width, target_height),
            s.parameter == plane_parameter(self.plane),
            s.marker_style == plane_style(self.plane),
            s.marker_vert_rad_micro == self.plane.vert_rad_micro,
            s.marker_segments == SEGMENTS,
    {
        Snapshot {
            transform: self.cam.get_camera_matrix((target_width, target_height)),
            parameter: self.plane.get_parameter(),
            marker_style: self.plane.get_marker_style(),
            marker_vert_rad_micro: self.plane.vert_rad_micro,
            marker_segments: SEGMENTS,
        }
    }

    /// Whether the dispatcher currently overlays the marker (the renderer
    /// draws it only in SelectParameter mode).
    pub fn marker_visible(&self) -> (r: bool)
        ensures
            r <==> self.state == MainState::Plane,
    {
        matches!(self.state, MainState::Plane)
    }
}

} // verus!
