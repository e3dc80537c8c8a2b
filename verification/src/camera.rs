//! The camera controller: a {Rest, Pan, Tumble} state machine turning
//! pointer events into a committed pan offset, a rotation, and a zoom
//! factor, and exposing the composed view transform.
//!
//! Units: pointer positions are whole pixels; `center` and `pan_delta` are
//! millionths of a clip-space unit; `scale` counts ten-thousandths, so
//! `SCALE_ONE` stands for a zoom factor of one.  The view transform is
//! returned with entries in millionths.

use vstd::prelude::*;
use crate::events::{ElementState, MouseButton};
use crate::fixed::{clip, clip64, clip_coord, sat_inc, sqrt_floor, tdiv, v2_zero, V2,
    COORD_LIMIT, clamp_coord, clip_to, clip_to_i64, div_trunc, isqrt, lemma_conj_mul_nonzero,
    lemma_mul_bounds, lemma_mul_pos, lemma_sq_nonneg, lemma_sq_pos, lemma_sqrt_floor_range};
use crate::rotation::{rot_compose, rot_identity, rot_wf, spec_reduce, Rotation, compose,
    lemma_rot_compose_wf, lemma_spec_reduce, reduce_pair};

verus! {

/// Fixed-point unit of the zoom factor: `scale == SCALE_ONE` is a zoom of 1.
pub const SCALE_ONE: i64 = 10000;

/// The zoom factor saturates at this magnitude (a zoom of one hundred
/// million in either direction): the multiplicative scroll rule is
/// otherwise unbounded, which exact machine integers cannot offer.
pub const SCALE_LIMIT: i64 = 1000000000000;

/// One clip-space unit, in the millionths used for offsets and the
/// transform entries.
pub const MICRO: i64 = 1000000;

/// The camera's gesture state.
#[derive(Clone, Copy, PartialEq, Eq, Structural, Debug)]
pub enum CameraState {
    Rest,
    Pan,
    Tumble,
}

/// The camera controller's whole state.
#[derive(Clone, Copy, PartialEq, Eq, Structural, Debug)]
pub struct Camera {
    pub state: CameraState,
    /// Committed pan offset, in millionths of a clip-space unit.
    pub center: V2,
    /// Last pointer position observed at rest, in pixels.
    pub old_mouse_location: V2,
    /// In-progress pan offset, nonzero only while panning, in millionths.
    pub pan_delta: V2,
    /// Zoom factor, in `SCALE_ONE` units.
    pub scale: i64,
    /// Committed rotation.
    pub angle: Rotation,
    /// In-progress rotation, identity except while tumbling.
    pub angle_delta: Rotation,
    /// How many unexpected button transitions were reported.
    pub anomalies: u64,
}

/// The composed view transform, row-major, entries in millionths: the exact
/// value of Translate(-(center + pan_delta)) * Rotate * Scale * Aspect.
#[derive(Clone, Copy, PartialEq, Eq, Structural, Debug)]
pub struct CameraMatrix {
    pub m00: i64,
    pub m01: i64,
    pub m02: i64,
    pub m10: i64,
    pub m11: i64,
    pub m12: i64,
    pub m20: i64,
    pub m21: i64,
    pub m22: i64,
}

/// The camera a session starts from.
pub open spec fn cam_init() -> Camera {
    Camera {
        state: CameraState::Rest,
        center: v2_zero(),
        old_mouse_location: v2_zero(),
        pan_delta: v2_zero(),
        scale: SCALE_ONE,
        angle: rot_identity(),
        angle_delta: rot_identity(),
        anomalies: 0u64,
    }
}

/// Well-formed camera: rotations valid, in-progress values cleared outside
/// their gesture, stored magnitudes within the machine bounds the
/// arithmetic needs.
pub open spec fn cam_wf(c: Camera) -> bool {
    &&& rot_wf(c.angle)
    &&& rot_wf(c.angle_delta)
    &&& (c.state != CameraState::Pan ==> c.pan_delta == v2_zero())
    &&& (c.state != CameraState::Tumble ==> c.angle_delta == rot_identity())
    &&& -(COORD_LIMIT as int) <= c.old_mouse_location.x <= COORD_LIMIT as int
    &&& -(COORD_LIMIT as int) <= c.old_mouse_location.y <= COORD_LIMIT as int
    &&& -(SCALE_LIMIT as int) <= c.scale <= SCALE_LIMIT as int
}

/// Transition table for button events.  Unlisted pairs are ignorable
/// anomalies: reported in the counter, state otherwise unchanged.
pub open spec fn cam_click_step(c: Camera, s: ElementState, b: MouseButton) -> Camera {
    if c.state == CameraState::Rest && s == ElementState::Pressed && b == MouseButton::Left {
        Camera { state: CameraState::Pan, ..c }
    } else if c.state == CameraState::Rest && s == ElementState::Pressed && b
        == MouseButton::Right {
        Camera { state: CameraState::Tumble, ..c }
    } else if c.state == CameraState::Pan && s == ElementState::Released && b
        == MouseButton::Left {
        Camera {
            state: CameraState::Rest,
            center: V2 {
                x: clip64(c.center.x + c.pan_delta.x),
                y: clip64(c.center.y + c.pan_delta.y),
            },
            pan_delta: v2_zero(),
            ..c
        }
    } else if c.state == CameraState::Tumble && s == ElementState::Released && b
        == MouseButton::Right {
        Camera {
            state: CameraState::Rest,
            angle: rot_compose(c.angle, c.angle_delta),
            angle_delta: rot_identity(),
            ..c
        }
    } else {
        Camera { anomalies: sat_inc(c.anomalies), ..c }
    }
}

/// The in-progress pan offset a pointer move computes: the delta from the
/// rest anchor, rotated by the inverse of the current rotation and scaled
/// into clip-space millionths.
pub open spec fn spec_pan_delta(c: Camera, nx: int, ny: int, w: u32, h: u32) -> V2 {
    let dx = c.old_mouse_location.x - nx;
    let dy = c.old_mouse_location.y - ny;
    let rot = rot_compose(c.angle, c.angle_delta);
    let n = sqrt_floor(rot.re * rot.re + rot.im * rot.im);
    let rx = rot.re * dx + rot.im * dy;
    let ry = rot.re * dy - rot.im * dx;
    V2 {
        x: clip64(tdiv(-200 * c.scale * rx, w * n)),
        y: clip64(tdiv(200 * c.scale * ry, h * n)),
    }
}

/// The in-progress rotation a pointer move computes while tumbling: the
/// direction of new_rel * conj(old_rel), where both positions are taken
/// relative to the viewport center (in half pixels, which leaves the
/// direction unchanged).  A pointer exactly at the center has no
/// direction, and leaves the rotation as it was.
pub open spec fn spec_tumble_delta(c: Camera, nx: int, ny: int, w: u32, h: u32) -> Rotation {
    let o2x = 2 * c.old_mouse_location.x - w;
    let o2y = 2 * c.old_mouse_location.y - h;
    let n2x = 2 * nx - w;
    let n2y = 2 * ny - h;
    if (o2x == 0 && o2y == 0) || (n2x == 0 && n2y == 0) {
        c.angle_delta
    } else {
        let pr = n2x * o2x + n2y * o2y;
        let pi = n2y * o2x - n2x * o2y;
        Rotation { re: spec_reduce(pr, pi).0 as i64, im: spec_reduce(pr, pi).1 as i64 }
    }
}

/// What a pointer move does: update the in-progress pan while panning, the
/// in-progress rotation while tumbling, and the rest anchor at rest.
pub open spec fn cam_move_step(c: Camera, x: i64, y: i64, w: u32, h: u32) -> Camera {
    let nx = clip_coord(x as int) as int;
    let ny = clip_coord(y as int) as int;
    match c.state {
        CameraState::Pan => Camera { pan_delta: spec_pan_delta(c, nx, ny, w, h), ..c },
        CameraState::Tumble => Camera { angle_delta: spec_tumble_delta(c, nx, ny, w, h), ..c },
        CameraState::Rest => Camera {
            old_mouse_location: V2 { x: nx as i64, y: ny as i64 },
            ..c
        },
    }
}

/// What a scroll does: multiply the zoom by `1 + delta / 1000`, exactly in
/// `SCALE_ONE` units, truncating toward zero and saturating at
/// `SCALE_LIMIT`.
pub open spec fn cam_scroll_step(c: Camera, delta: i64) -> Camera {
    Camera {
        scale: clip(
            tdiv(c.scale * (SCALE_ONE + 10 * delta), SCALE_ONE as int),
            -(SCALE_LIMIT as int),
            SCALE_LIMIT as int,
        ) as i64,
        ..c
    }
}

/// The composed view transform:
/// Translate(-(center + pan_delta)) * Rotate(direction of angle *
/// angle_delta) * Scale(scale, scale) * Aspect(w / h on the x axis),
/// each entry in millionths, truncated toward zero.
pub open spec fn cam_matrix(c: Camera, w: u32, h: u32) -> CameraMatrix {
    let rot = rot_compose(c.angle, c.angle_delta);
    let n = sqrt_floor(rot.re * rot.re + rot.im * rot.im);
    CameraMatrix {
        m00: clip64(tdiv(100 * w * c.scale * rot.re, h * n)),
        m01: clip64(tdiv(-100 * c.scale * rot.im, n)),
        m02: clip64(-(c.center.x + c.pan_delta.x)),
        m10: clip64(tdiv(100 * w * c.scale * rot.im, h * n)),
        m11: clip64(tdiv(100 * c.scale * rot.re, n)),
        m12: clip64(-(c.center.y + c.pan_delta.y)),
        m20: 0i64,
        m21: 0i64,
        m22: MICRO,
    }
}

/// Button transitions preserve well-formedness.
pub proof fn lemma_cam_click_wf(c: Camera, s: ElementState, b: MouseButton)
    requires
        cam_wf(c),
    ensures
        cam_wf(cam_click_step(c, s, b)),
{
    if c.state == CameraState::Tumble && s == ElementState::Released && b == MouseButton::Right {
        lemma_rot_compose_wf(c.angle, c.angle_delta);
    }
}

/// Pointer moves preserve well-formedness.
pub proof fn lemma_cam_move_wf(c: Camera, x: i64, y: i64, w: u32, h: u32)
    requires
        cam_wf(c),
    ensures
        cam_wf(cam_move_step(c, x, y, w, h)),
{
    if c.state == CameraState::Tumble {
        let nx = clip_coord(x as int) as int;
        let ny = clip_coord(y as int) as int;
        let o2x = 2 * c.old_mouse_location.x - w;
        let o2y = 2 * c.old_mouse_location.y - h;
        let n2x = 2 * nx - w;
        let n2y = 2 * ny - h;
        if !((o2x == 0 && o2y == 0) || (n2x == 0 && n2y == 0)) {
            lemma_conj_mul_nonzero(n2x, n2y, o2x, o2y);
            lemma_spec_reduce(n2x * o2x + n2y * o2y, n2y * o2x - n2x * o2y);
        }
    }
}

/// Scrolls preserve well-formedness.
pub proof fn lemma_cam_scroll_wf(c: Camera, delta: i64)
    requires
        cam_wf(c),
    ensures
        cam_wf(cam_scroll_step(c, delta)),
{
}

/// Law: a primary-button press followed by its release, with no pointer
/// motion in between, leaves the committed pan offset exactly where it
/// was — a pan gesture without movement pans by nothing.
pub proof fn lemma_click_release_keeps_center(c: Camera)
    requires
        cam_wf(c),
        c.state == CameraState::Rest,
    ensures
        cam_click_step(
            cam_click_step(c, ElementState::Pressed, MouseButton::Left),
            ElementState::Released,
            MouseButton::Left,
        ).center == c.center,
{
}

impl Camera {
    /// A camera at rest: no pan, identity rotation, zoom of one.
    pub fn new() -> (c: Camera)
        ensures
            c == cam_init(),
            cam_wf(c),
    {
        Camera {
            state: CameraState::Rest,
            center: V2 { x: 0, y: 0 },
            old_mouse_location: V2 { x: 0, y: 0 },
            pan_delta: V2 { x: 0, y: 0 },
            scale: SCALE_ONE,
            angle: Rotation::identity(),
            angle_delta: Rotation::identity(),
            anomalies: 0,
        }
    }

    /// The composed current rotation, together with the floor of its norm
    /// (always at least one, so it can stand as a divisor).
    fn current_rotation(&self) -> (r: (Rotation, u128))
        requires
            cam_wf(*self),
        ensures
            r.0 == rot_compose(self.angle, self.angle_delta),
            rot_wf(r.0),
            r.1 == sqrt_floor(r.0.re * r.0.re + r.0.im * r.0.im),
            1 <= r.1 < 0x20000,
    {
        let rot = compose(&self.angle, &self.angle_delta);
        proof {
            lemma_mul_bounds(rot.re as int, rot.re as int, 65535, 65535);
            lemma_mul_bounds(rot.im as int, rot.im as int, 65535, 65535);
            lemma_sq_nonneg(rot.re as int);
            lemma_sq_nonneg(rot.im as int);
            if rot.re != 0 {
                lemma_sq_pos(rot.re as int);
            } else {
                lemma_sq_pos(rot.im as int);
            }
        }
        let mag: i128 = (rot.re as i128) * (rot.re as i128) + (rot.im as i128) * (rot.im
            as i128);
        let n = isqrt(mag as u128);
        proof {
            lemma_sqrt_floor_range(mag as int);
            crate::fixed::lemma_sqrt_floor_bounds(mag as int);
            crate::fixed::lemma_sq_bound(n as int, mag as int, 0x20000);
        }
        (rot, n)
    }

    /// Apply a button event, by the transition table; unexpected pairs are
    /// counted as anomalies and change nothing else.
    pub fn handle_mouse_click(&mut self, button_state: ElementState, button: MouseButton)
        requires
            cam_wf(*old(self)),
        ensures
            cam_wf(*final(self)),
            *final(self) == cam_click_step(*old(self), button_state, button),
    {
        proof {
            lemma_cam_click_wf(*old(self), button_state, button);
        }
        match (self.state, button_state, button) {
            (CameraState::Rest, ElementState::Pressed, MouseButton::Left) => {
                self.state = CameraState::Pan;
            },
            (CameraState::Rest, ElementState::Pressed, MouseButton::Right) => {
                self.state = CameraState::Tumble;
            },
            (CameraState::Pan, ElementState::Released, MouseButton::Left) => {
                let cx = clip_to_i64((self.center.x as i128) + (self.pan_delta.x as i128));
                let cy = clip_to_i64((self.center.y as i128) + (self.pan_delta.y as i128));
                self.center = V2 { x: cx, y: cy };
                self.pan_delta = V2 { x: 0, y: 0 };
                self.state = CameraState::Rest;
            },
            (CameraState::Tumble, ElementState::Released, MouseButton::Right) => {
                let composed = compose(&self.angle, &self.angle_delta);
                self.angle = composed;
                self.angle_delta = Rotation::identity();
                self.state = CameraState::Rest;
            },
            _ => {
                self.anomalies = if self.anomalies == u64::MAX {
                    self.anomalies
                } else {
                    self.anomalies + 1
                };
            },
        }
    }

    /// Apply a pointer move.  While panning this recomputes the in-progress
    /// pan offset from the rest anchor; while tumbling, the in-progress
    /// rotation; at rest it re-arms the anchor.
    pub fn handle_mouse_move(&mut self, x: i64, y: i64, w: u32, h: u32)
        requires
            cam_wf(*old(self)),
            w >= 1,
            h >= 1,
        ensures
            cam_wf(*final(self)),
            *final(self) == cam_move_step(*old(self), x, y, w, h),
    {
        proof {
            lemma_cam_move_wf(*old(self), x, y, w, h);
        }
        let nx = clamp_coord(x);
        let ny = clamp_coord(y);
        match self.state {
            CameraState::Pan => {
                let dx: i64 = self.old_mouse_location.x - nx;
                let dy: i64 = self.old_mouse_location.y - ny;
                let (rot, n) = self.current_rotation();
                proof {
                    lemma_mul_bounds(rot.re as int, dx as int, 65535, 4294967296);
                    lemma_mul_bounds(rot.im as int, dy as int, 65535, 4294967296);
                    lemma_mul_bounds(rot.re as int, dy as int, 65535, 4294967296);
                    lemma_mul_bounds(rot.im as int, dx as int, 65535, 4294967296);
                }
                let rx: i128 = (rot.re as i128) * (dx as i128) + (rot.im as i128) * (dy as i128);
                let ry: i128 = (rot.re as i128) * (dy as i128) - (rot.im as i128) * (dx as i128);
                let sc: i128 = self.scale as i128;
                proof {
                    lemma_mul_bounds(
                        (-200 * sc) as int,
                        rx as int,
                        200000000000000,
                        562958543355904,
                    );
                    lemma_mul_bounds(
                        (200 * sc) as int,
                        ry as int,
                        200000000000000,
                        562958543355904,
                    );
                    lemma_mul_pos(w as int, n as int);
                    lemma_mul_pos(h as int, n as int);
                    lemma_mul_bounds(w as int, n as int, 4294967296, 131072);
                    lemma_mul_bounds(h as int, n as int, 4294967296, 131072);
                }
                let numx: i128 = -200 * sc * rx;
                let numy: i128 = 200 * sc * ry;
                let denx: i128 = (w as i128) * (n as i128);
                let deny: i128 = (h as i128) * (n as i128);
                let px = clip_to_i64(div_trunc(numx, denx));
                let py = clip_to_i64(div_trunc(numy, deny));
                self.pan_delta = V2 { x: px, y: py };
            },
            CameraState::Tumble => {
                let o2x: i128 = 2 * (self.old_mouse_location.x as i128) - (w as i128);
                let o2y: i128 = 2 * (self.old_mouse_location.y as i128) - (h as i128);
                let n2x: i128 = 2 * (nx as i128) - (w as i128);
                let n2y: i128 = 2 * (ny as i128) - (h as i128);
                if (o2x == 0 && o2y == 0) || (n2x == 0 && n2y == 0) {
                    // The pointer sits exactly on the viewport center: there
                    // is no direction to rotate from, so the in-progress
                    // rotation stays as it is.
                } else {
                    proof {
                        lemma_conj_mul_nonzero(n2x as int, n2y as int, o2x as int, o2y as int);
                        lemma_mul_bounds(n2x as int, o2x as int, 8589934592, 8589934592);
                        lemma_mul_bounds(n2y as int, o2y as int, 8589934592, 8589934592);
                        lemma_mul_bounds(n2y as int, o2x as int, 8589934592, 8589934592);
                        lemma_mul_bounds(n2x as int, o2y as int, 8589934592, 8589934592);
                    }
                    let pr: i128 = n2x * o2x + n2y * o2y;
                    let pi: i128 = n2y * o2x - n2x * o2y;
                    self.angle_delta = reduce_pair(pr, pi);
                }
            },
            CameraState::Rest => {
                self.old_mouse_location = V2 { x: nx, y: ny };
            },
        }
    }

    /// Apply a scroll: multiply the zoom by `1 + delta / 1000`, exactly in
    /// fixed point, saturating at `SCALE_LIMIT`.
    pub fn handle_mouse_scroll(&mut self, delta: i64)
        requires
            cam_wf(*old(self)),
        ensures
            cam_wf(*final(self)),
            *final(self) == cam_scroll_step(*old(self), delta),
    {
        let factor: i128 = (SCALE_ONE as i128) + 10 * (delta as i128);
        proof {
            lemma_mul_bounds(
                self.scale as int,
                factor as int,
                1000000000000,
                92233720368547768070,
            );
        }
        let prod: i128 = (self.scale as i128) * factor;
        let q = div_trunc(prod, SCALE_ONE as i128);
        let s = clip_to(q, SCALE_LIMIT as i128);
        self.scale = s as i64;
    }

    /// The composed view transform for the given target size, in millionths.
    pub fn get_camera_matrix(&self, target_dimensions: (u32, u32)) -> (m: CameraMatrix)
        requires
            cam_wf(*self),
            target_dimensions.0 >= 1,
            target_dimensions.1 >= 1,
        ensures
            m == cam_matrix(*self, target_dimensions.0, target_dimensions.1),
    {
        let (w, h) = target_dimensions;
        let (rot, n) = self.current_rotation();
        let ni: i128 = n as i128;
        let sc: i128 = self.scale as i128;
        let wi: i128 = w as i128;
        let hi: i128 = h as i128;
        proof {
            lemma_mul_bounds((100 * wi) as int, sc as int, 429496729600, 1000000000000);
            lemma_mul_bounds(
                (100 * wi * sc) as int,
                rot.re as int,
                429496729600000000000000,
                65535,
            );
            lemma_mul_bounds(
                (100 * wi * sc) as int,
                rot.im as int,
                429496729600000000000000,
                65535,
            );
            lemma_mul_bounds((-100 * sc) as int, rot.im as int, 100000000000000, 65535);
            lemma_mul_bounds((100 * sc) as int, rot.re as int, 100000000000000, 65535);
            lemma_mul_pos(hi as int, ni as int);
            lemma_mul_bounds(hi as int, ni as int, 4294967296, 131072);
        }
        CameraMatrix {
            m00: clip_to_i64(div_trunc(100 * wi * sc * (rot.re as i128), hi * ni)),
            m01: clip_to_i64(div_trunc(-100 * sc * (rot.im as i128), ni)),
            m02: clip_to_i64(-((self.center.x as i128) + (self.pan_delta.x as i128))),
            m10: clip_to_i64(div_trunc(100 * wi * sc * (rot.im as i128), hi * ni)),
            m11: clip_to_i64(div_trunc(100 * sc * (rot.re as i128), ni)),
            m12: clip_to_i64(-((self.center.y as i128) + (self.pan_delta.y as i128))),
            m20: 0,
            m21: 0,
            m22: MICRO,
        }
    }
}

} // verus!
