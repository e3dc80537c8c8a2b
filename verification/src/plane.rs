//! The parameter selector: a {Rest, Drag} state machine that lets the user
//! drag a marker over the viewport.  The marker's position, normalized by a
//! fixed reference extent, is the complex rendering parameter.  The marker
//! is drawn as a polygon fan whose topology and radius are built once here;
//! placing the fan's vertices on the circle is trigonometry and is left to
//! the rendering layer.

use vstd::prelude::*;
use crate::events::{ElementState, MouseButton};
use crate::fixed::{clip64, clip_coord, sat_inc, tdiv, v2_zero, V2, COORD_LIMIT,
    clamp_coord, clip_to, clip_to_i64, div_trunc, lemma_mul_bounds};

verus! {

/// Number of outer vertices in the marker's polygon fan.
pub const SEGMENTS: u32 = 50;

/// Reference extent of the parameter mapping: a marker at pixel
/// `(PARAM_EXTENT, PARAM_EXTENT)` maps to the parameter origin, and the
/// default window spans two extents, so the parameter covers [-1, 1].
pub const PARAM_EXTENT: i64 = 1024;

/// One parameter unit, in the millionths the parameter is returned in.
pub const PARAM_MICRO: i64 = 1000000;

/// The selector's gesture state.
#[derive(Clone, Copy, PartialEq, Eq, Structural, Debug)]
pub enum PlaneState {
    Rest,
    Drag,
}

/// How the renderer should style the marker.
#[derive(Clone, Copy, PartialEq, Eq, Structural, Debug)]
pub enum MarkerStyle {
    Idle,
    Dragging,
}

/// The parameter selector's whole state.
pub struct Plane {
    pub state: PlaneState,
    /// The draggable marker, in viewport pixels.
    pub button_pos: V2,
    /// Last observed pointer position, in pixels, y flipped to the
    /// viewport's convention.
    pub mouse_pos: V2,
    /// Offset from pointer to marker at grab time, read only while
    /// dragging.
    pub mouse_offset: V2,
    /// Hit-test radius of the marker, in pixels.
    pub button_rad: i64,
    /// Fan topology of the marker disc, built once.
    pub selector_indices: Vec<u32>,
    /// Marker radius in millionths of a clip-space unit, from the viewport
    /// width the selector was built for.
    pub vert_rad_micro: i64,
    /// How many unexpected button transitions were reported.
    pub anomalies: u64,
}

/// Index `k` of the fan: triangles `(i, i + 1 mod SEGMENTS, center)` for
/// each outer vertex `i`, the center vertex sitting at index `SEGMENTS`.
pub open spec fn fan_entry(segments: u32, k: int) -> u32 {
    if k % 3 == 0 {
        (k / 3) as u32
    } else if k % 3 == 1 {
        ((k / 3 + 1) % (segments as int)) as u32
    } else {
        segments
    }
}

/// The whole fan index list.
pub open spec fn fan_indices_spec(segments: u32) -> Seq<u32> {
    Seq::new(3 * segments as nat, |k: int| fan_entry(segments, k))
}

/// Well-formed selector: stored magnitudes within the machine bounds the
/// arithmetic needs, and the fan built for `SEGMENTS`.
pub open spec fn plane_wf(p: Plane) -> bool {
    &&& -(COORD_LIMIT as int) <= p.button_pos.x <= COORD_LIMIT as int
    &&& -(COORD_LIMIT as int) <= p.button_pos.y <= COORD_LIMIT as int
    &&& -(COORD_LIMIT as int) <= p.mouse_pos.x <= COORD_LIMIT as int
    &&& -(COORD_LIMIT as int) <= p.mouse_pos.y <= COORD_LIMIT as int
    &&& -2 * (COORD_LIMIT as int) <= p.mouse_offset.x <= 2 * (COORD_LIMIT as int)
    &&& -2 * (COORD_LIMIT as int) <= p.mouse_offset.y <= 2 * (COORD_LIMIT as int)
    &&& 0 <= p.button_rad <= COORD_LIMIT as int
    &&& p.selector_indices@ == fan_indices_spec(SEGMENTS)
}

/// Transition table for button events.  A press inside the marker radius
/// (by squared distance) grabs it; a press outside is a miss, not an
/// anomaly; a release while dragging always ends the drag, wherever the
/// pointer is.  Unlisted pairs are anomalies: counted, nothing else
/// changed.
pub open spec fn plane_click_step(p: Plane, s: ElementState, b: MouseButton) -> Plane {
    if p.state == PlaneState::Rest && s == ElementState::Pressed && b == MouseButton::Left {
        let off = V2 {
            x: (p.button_pos.x - p.mouse_pos.x) as i64,
            y: (p.button_pos.y - p.mouse_pos.y) as i64,
        };
        if off.x * off.x + off.y * off.y < p.button_rad * p.button_rad {
            Plane { state: PlaneState::Drag, mouse_offset: off, ..p }
        } else {
            Plane { mouse_offset: off, ..p }
        }
    } else if p.state == PlaneState::Drag && s == ElementState::Released && b
        == MouseButton::Left {
        Plane { state: PlaneState::Rest, ..p }
    } else {
        Plane { anomalies: sat_inc(p.anomalies), ..p }
    }
}

/// What a pointer move does: record the position (y flipped to the
/// viewport convention) and, while dragging, carry the marker along at the
/// grab offset.
pub open spec fn plane_move_step(p: Plane, x: i64, y: i64, w: u32, h: u32) -> Plane {
    let mp = V2 { x: clip_coord(x as int), y: clip_coord(h - y) };
    if p.state == PlaneState::Drag {
        Plane {
            mouse_pos: mp,
            button_pos: V2 {
                x: clip_coord(mp.x + p.mouse_offset.x),
                y: clip_coord(mp.y + p.mouse_offset.y),
            },
            ..p
        }
    } else {
        Plane { mouse_pos: mp, ..p }
    }
}

/// The marker position normalized by the reference extent, in millionths:
/// `pos / PARAM_EXTENT - 1` on each axis.
pub open spec fn plane_parameter(p: Plane) -> V2 {
    V2 {
        x: clip64(tdiv((p.button_pos.x - PARAM_EXTENT) * PARAM_MICRO, PARAM_EXTENT as int)),
        y: clip64(tdiv((p.button_pos.y - PARAM_EXTENT) * PARAM_MICRO, PARAM_EXTENT as int)),
    }
}

/// The marker style the renderer maps to a color.
pub open spec fn plane_style(p: Plane) -> MarkerStyle {
    if p.state == PlaneState::Drag {
        MarkerStyle::Dragging
    } else {
        MarkerStyle::Idle
    }
}

/// Button transitions preserve well-formedness.
pub proof fn lemma_plane_click_wf(p: Plane, s: ElementState, b: MouseButton)
    requires
        plane_wf(p),
    ensures
        plane_wf(plane_click_step(p, s, b)),
{
}

/// Pointer moves preserve well-formedness.
pub proof fn lemma_plane_move_wf(p: Plane, x: i64, y: i64, w: u32, h: u32)
    requires
        plane_wf(p),
    ensures
        plane_wf(plane_move_step(p, x, y, w, h)),
{
}

/// Law: a release of the primary button while dragging always ends the
/// drag, and leaves the marker where the drag last put it — it is not
/// snapped back, even when the pointer has left the marker.
pub proof fn lemma_release_ends_drag(p: Plane)
    requires
        plane_wf(p),
        p.state == PlaneState::Drag,
    ensures
        plane_click_step(p, ElementState::Released, MouseButton::Left).state == PlaneState::Rest,
        plane_click_step(p, ElementState::Released, MouseButton::Left).button_pos == p.button_pos,
{
}

/// Build the fan topology: for each outer vertex `i`, the triangle
/// `(i, i + 1 mod segments, center)`, the center vertex being `segments`.
pub fn build_fan_indices(segments: u32) -> (v: Vec<u32>)
    requires
        1 <= segments <= 100000,
    ensures
        v@ == fan_indices_spec(segments),
{
    let mut v: Vec<u32> = Vec::new();
    let mut i: u32 = 0;
    while i < segments
        invariant
            i <= segments,
            1 <= segments <= 100000,
            v@.len() == 3 * i,
            forall|k: int| 0 <= k < v@.len() ==> v@[k] == fan_entry(segments, k),
        decreases segments - i,
    {
        let ghost i0 = i as int;
        v.push(i);
        v.push((i + 1) % segments);
        v.push(segments);
        proof {
            assert((3 * i0) % 3 == 0);
            assert((3 * i0) / 3 == i0);
            assert((3 * i0 + 1) % 3 == 1);
            assert((3 * i0 + 1) / 3 == i0);
            assert((3 * i0 + 2) % 3 == 2);
            assert((3 * i0 + 2) / 3 == i0);
        }
        i = i + 1;
    }
    proof {
        assert(v@ =~= fan_indices_spec(segments));
    }
    v
}

impl Plane {
    /// A selector whose marker rests at the viewport center with the given
    /// hit radius, its fan topology built once.
    pub fn new(rad: i64, w: u32, h: u32) -> (p: Plane)
        requires
            w >= 1,
            h >= 1,
            0 <= rad <= COORD_LIMIT,
        ensures
            plane_wf(p),
            p.state == PlaneState::Rest,
            p.button_pos == (V2 { x: (w as int / 2) as i64, y: (h as int / 2) as i64 }),
            p.mouse_pos == v2_zero(),
            p.mouse_offset == v2_zero(),
            p.button_rad == rad,
            p.vert_rad_micro == clip64(tdiv(2 * rad * PARAM_MICRO, w as int)),
            p.anomalies == 0,
    {
        let num: i128 = 2 * (rad as i128) * (PARAM_MICRO as i128);
        let vert_rad = clip_to_i64(div_trunc(num, w as i128));
        Plane {
            state: PlaneState::Rest,
            button_pos: V2 { x: (w / 2) as i64, y: (h / 2) as i64 },
            mouse_pos: V2 { x: 0, y: 0 },
            mouse_offset: V2 { x: 0, y: 0 },
            button_rad: rad,
            selector_indices: build_fan_indices(SEGMENTS),
            vert_rad_micro: vert_rad,
            anomalies: 0,
        }
    }

    /// Apply a button event, by the transition table; a press grabs the
    /// marker exactly when the squared pointer distance is below the
    /// squared radius.
    pub fn handle_mouse_click(&mut self, button_state: ElementState, button: MouseButton)
        requires
            plane_wf(*old(self)),
        ensures
            plane_wf(*final(self)),
            *final(self) == plane_click_step(*old(self), button_state, button),
    {
        proof {
            lemma_plane_click_wf(*old(self), button_state, button);
        }
        match (self.state, button_state, button) {
            (PlaneState::Rest, ElementState::Pressed, MouseButton::Left) => {
                let ox: i64 = self.button_pos.x - self.mouse_pos.x;
                let oy: i64 = self.button_pos.y - self.mouse_pos.y;
                self.mouse_offset = V2 { x: ox, y: oy };
                proof {
                    lemma_mul_bounds(ox as int, ox as int, 4294967296, 4294967296);
                    lemma_mul_bounds(oy as int, oy as int, 4294967296, 4294967296);
                    lemma_mul_bounds(
                        self.button_rad as int,
                        self.button_rad as int,
                        2147483648,
                        2147483648,
                    );
                }
                let d2: i128 = (ox as i128) * (ox as i128) + (oy as i128) * (oy as i128);
                let r2: i128 = (self.button_rad as i128) * (self.button_rad as i128);
                if d2 < r2 {
                    self.state = PlaneState::Drag;
                }
            },
            (PlaneState::Drag, ElementState::Released, MouseButton::Left) => {
                self.state = PlaneState::Rest;
            },
            _ => {
                self.anomalies = if self.anomalies == u64::MAX {
                    self.anomalies
                } else {
                    self.anomalies + 1
                };
            },
        }
    }

    /// Apply a pointer move: track the pointer and drag the marker along.
    pub fn handle_mouse_move(&mut self, x: i64, y: i64, w: u32, h: u32)
        requires
            plane_wf(*old(self)),
            w >= 1,
            h >= 1,
        ensures
            plane_wf(*final(self)),
            *final(self) == plane_move_step(*old(self), x, y, w, h),
    {
        proof {
            lemma_plane_move_wf(*old(self), x, y, w, h);
        }
        let mx = clamp_coord(x);
        let flipped: i128 = (h as i128) - (y as i128);
        let my = clip_to(flipped, COORD_LIMIT as i128) as i64;
        self.mouse_pos = V2 { x: mx, y: my };
        if matches!(self.state, PlaneState::Drag) {
            let bx = clip_to((mx as i128) + (self.mouse_offset.x as i128), COORD_LIMIT as i128)
                as i64;
            let by = clip_to((my as i128) + (self.mouse_offset.y as i128), COORD_LIMIT as i128)
                as i64;
            self.button_pos = V2 { x: bx, y: by };
        }
    }

    /// Scroll is a reserved no-op for the selector.
    pub fn handle_mouse_scroll(&mut self, _delta: i64)
        ensures
            *final(self) == *old(self),
    {
    }

    /// The marker position, in pixels.
    pub fn get_pos(&self) -> (r: V2)
        ensures
            r == self.button_pos,
    {
        self.button_pos
    }

    /// The complex rendering parameter: the marker position normalized by
    /// the reference extent, in millionths.
    pub fn get_parameter(&self) -> (r: V2)
        requires
            plane_wf(*self),
        ensures
            r == plane_parameter(*self),
    {
        let nx: i128 = ((self.button_pos.x as i128) - (PARAM_EXTENT as i128)) * (PARAM_MICRO
            as i128);
        let ny: i128 = ((self.button_pos.y as i128) - (PARAM_EXTENT as i128)) * (PARAM_MICRO
            as i128);
        V2 {
            x: clip_to_i64(div_trunc(nx, PARAM_EXTENT as i128)),
            y: clip_to_i64(div_trunc(ny, PARAM_EXTENT as i128)),
        }
    }

    /// How the renderer should style the marker right now.
    pub fn get_marker_style(&self) -> (r: MarkerStyle)
        ensures
            r == plane_style(*self),
    {
        if matches!(self.state, PlaneState::Drag) {
            MarkerStyle::Dragging
        } else {
            MarkerStyle::Idle
        }
    }

    /// The marker's fan topology, for the renderer.
    pub fn get_marker_indices(&self) -> (r: &Vec<u32>)
        requires
            plane_wf(*self),
        ensures
            r@ == fan_indices_spec(SEGMENTS),
    {
        &self.selector_indices
    }
}

} // verus!
