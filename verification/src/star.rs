//! The star scene object: shape parameters, GPU handle lifecycle and
//! the input-driven directional light.
//!
//! The graphics API itself is driven by the host around this library;
//! here the lifecycle is a verified state machine over plain handle
//! values. Handles are installed and released through `install_resource`
//! and `close`, which always hand the previously held handles back to
//! the caller, so no set of handles is ever silently dropped.

use vstd::prelude::*;
use crate::geometry::{Vec3i, norm_sq, MILLI};
use crate::mesh::{Geometry, wf_geometry, star_vertices, lemma_flat_shading};
use crate::normal::{face_cross_sq, lemma_face_normal_unit_length};
use crate::sqrt::lemma_sqrt_floor_at_least;

verus! {

broadcast use vstd::string::to_string_from_display_ensures_for_str;

/// Fixed per-frame translation of the light position, in milli-units
/// (one hundredth of a world unit).
pub const LIGHT_STEP: i64 = 10;

/// The four directional input flags read each frame.
#[derive(Clone, Copy, PartialEq, Eq, Structural, Debug)]
pub struct ControlState {
    pub move_up: bool,
    pub move_down: bool,
    pub move_left: bool,
    pub move_right: bool,
}

/// A directional light: the shader uniform's name and the position
/// the light is aimed from.
#[derive(Debug)]
pub struct Directional {
    pub name: String,
    pub position: Vec3i,
}

impl Directional {
    pub fn new(name: String, position: Vec3i) -> (r: Directional)
        ensures
            r.name == name,
            r.position == position,
    {
        Directional { name, position }
    }
}

/// The GPU-side handles the star owns: shader program, vertex array,
/// vertex buffer, and the number of uploaded vertices.
#[derive(Clone, Copy, PartialEq, Eq, Structural, Debug)]
pub struct GlResource {
    pub shader_program: u32,
    pub vao: u32,
    pub vbo: u32,
    pub indice_num: i32,
}

/// The uninitialized/closed resource state: every handle is zero.
pub open spec fn resource_uninit(r: GlResource) -> bool {
    &&& r.shader_program == 0
    &&& r.vao == 0
    &&& r.vbo == 0
    &&& r.indice_num == 0
}

/// Paths of the two shader sources handed to initialization by the
/// host.
pub struct Parameter<'a> {
    pub fragment_shader_path: &'a str,
    pub vertex_shader_path: &'a str,
}

/// The star object: immutable shape parameters, the owned GPU
/// handles, and the movable directional light.
#[derive(Debug)]
pub struct ChristmasStar {
    pub geometry: Geometry,
    pub resource: GlResource,
    pub directional: Directional,
}

/// The all-zero handle set.
pub open spec fn zero_resource() -> GlResource {
    GlResource { shader_program: 0, vao: 0, vbo: 0, indice_num: 0 }
}

/// The star `s` holding the handle set `r` instead of its own.
pub open spec fn with_resource(s: ChristmasStar, r: GlResource) -> ChristmasStar {
    ChristmasStar { geometry: s.geometry, resource: r, directional: s.directional }
}

/// The default shape: spikes 0.8 and 0.3 units long, a 0.1 unit slab,
/// and small asymmetric canyon notches, centered at the origin.
pub open spec fn default_geometry() -> Geometry {
    Geometry {
        center: Vec3i { x: 0, y: 0, z: 0 },
        left_canyon_offset: Vec3i { x: 50, y: 100, z: 0 },
        right_canyon_offset: Vec3i { x: 100, y: 50, z: 0 },
        long_spike_length: 800,
        short_spike_length: 300,
        thickness: 100,
    }
}

/// `a + b` clamped to the `i64` range.
pub open spec fn sat_add(a: int, b: int) -> int {
    if a + b > i64::MAX {
        i64::MAX as int
    } else if a + b < i64::MIN {
        i64::MIN as int
    } else {
        a + b
    }
}

/// `a - b` clamped to the `i64` range.
pub open spec fn sat_sub(a: int, b: int) -> int {
    if a - b > i64::MAX {
        i64::MAX as int
    } else if a - b < i64::MIN {
        i64::MIN as int
    } else {
        a - b
    }
}

/// Net horizontal light step requested by the input flags.
pub open spec fn step_x(cs: ControlState) -> int {
    (if cs.move_right { LIGHT_STEP as int } else { 0 }) - (if cs.move_left { LIGHT_STEP as int } else { 0 })
}

/// Net vertical light step requested by the input flags.
pub open spec fn step_y(cs: ControlState) -> int {
    (if cs.move_up { LIGHT_STEP as int } else { 0 }) - (if cs.move_down { LIGHT_STEP as int } else { 0 })
}

/// The light position after one frame of input: the net step applied
/// to x and y, z untouched.
pub open spec fn update_position(p: Vec3i, cs: ControlState) -> Vec3i {
    Vec3i {
        x: sat_add(p.x as int, step_x(cs)) as i64,
        y: sat_add(p.y as int, step_y(cs)) as i64,
        z: p.z,
    }
}

/// Saturating `i64` addition with an exact contract.
fn sat_add_i64(a: i64, b: i64) -> (r: i64)
    ensures
        r as int == sat_add(a as int, b as int),
{
    if b >= 0 {
        if a > i64::MAX - b {
            i64::MAX
        } else {
            a + b
        }
    } else {
        if a < i64::MIN - b {
            i64::MIN
        } else {
            a + b
        }
    }
}

/// Saturating `i64` subtraction with an exact contract.
fn sat_sub_i64(a: i64, b: i64) -> (r: i64)
    ensures
        r as int == sat_sub(a as int, b as int),
{
    if b >= 0 {
        if a < i64::MIN + b {
            i64::MIN
        } else {
            a - b
        }
    } else {
        if a > i64::MAX + b {
            i64::MAX
        } else {
            a - b
        }
    }
}

impl ChristmasStar {
    /// A star with the default shape, no GPU resources, and the light
    /// at its default position.
    pub fn new() -> (r: ChristmasStar)
        ensures
            r.geometry == default_geometry(),
            wf_geometry(r.geometry),
            resource_uninit(r.resource),
            r.directional.name@ == "direction_to_light"@,
            r.directional.position == (Vec3i { x: 400, y: 500, z: 500 }),
    {
        ChristmasStar {
            geometry: Geometry {
                center: Vec3i::new(0, 0, 0),
                left_canyon_offset: Vec3i::new(50, 100, 0),
                right_canyon_offset: Vec3i::new(100, 50, 0),
                long_spike_length: 800,
                short_spike_length: 300,
                thickness: 100,
            },
            resource: GlResource { shader_program: 0, vao: 0, vbo: 0, indice_num: 0 },
            directional: Directional::new("direction_to_light".to_string(), Vec3i::new(400, 500, 500)),
        }
    }

    /// Takes ownership of a freshly created set of GPU handles and
    /// returns the previously held set, so the caller can release it:
    /// re-initializing never leaks the earlier handles.
    pub fn install_resource(&mut self, shader_program: u32, vao: u32, vbo: u32, indice_num: i32) -> (freed: GlResource)
        ensures
            freed == old(self).resource,
            *final(self) == with_resource(*old(self), GlResource { shader_program, vao, vbo, indice_num }),
    {
        let freed = self.resource;
        self.resource = GlResource { shader_program, vao, vbo, indice_num };
        freed
    }

    /// Releases ownership of the GPU handles: zeroes every handle and
    /// returns the old set for the caller to delete. Callable in any
    /// state — after a full init, a partial one, or a previous close —
    /// and idempotent: closing a closed star returns only zeros.
    pub fn close(&mut self) -> (freed: GlResource)
        ensures
            freed == old(self).resource,
            *final(self) == with_resource(*old(self), zero_resource()),
            resource_uninit(final(self).resource),
    {
        let freed = self.resource;
        self.resource = GlResource { shader_program: 0, vao: 0, vbo: 0, indice_num: 0 };
        freed
    }

    /// Applies one frame of input to the light position: each pressed
    /// direction moves it by `LIGHT_STEP`, opposite directions cancel,
    /// and nothing else changes.
    pub fn update(&mut self, cs: &ControlState) -> (r: Result<(), String>)
        ensures
            r is Ok,
            final(self).directional.position == update_position(old(self).directional.position, *cs),
            final(self).directional.name == old(self).directional.name,
            final(self).geometry == old(self).geometry,
            final(self).resource == old(self).resource,
    {
        let mut dx: i64 = 0;
        let mut dy: i64 = 0;
        if cs.move_up {
            dy = dy + LIGHT_STEP;
        }
        if cs.move_down {
            dy = dy - LIGHT_STEP;
        }
        if cs.move_left {
            dx = dx - LIGHT_STEP;
        }
        if cs.move_right {
            dx = dx + LIGHT_STEP;
        }
        self.directional.position.x = sat_add_i64(self.directional.position.x, dx);
        self.directional.position.y = sat_add_i64(self.directional.position.y, dy);
        Ok(())
    }

    /// The direction the light shines from, relative to the star's
    /// center: `light position - center`, not normalized.
    pub fn light_direction(&self) -> (d: Vec3i)
        ensures
            d == (Vec3i {
                x: sat_sub(self.directional.position.x as int, self.geometry.center.x as int) as i64,
                y: sat_sub(self.directional.position.y as int, self.geometry.center.y as int) as i64,
                z: sat_sub(self.directional.position.z as int, self.geometry.center.z as int) as i64,
            }),
    {
        Vec3i {
            x: sat_sub_i64(self.directional.position.x, self.geometry.center.x),
            y: sat_sub_i64(self.directional.position.y, self.geometry.center.y),
            z: sat_sub_i64(self.directional.position.z, self.geometry.center.z),
        }
    }
}

/// The default shape is non-degenerate through and through: each of
/// its sixteen faces has an edge cross product at least one unit
/// long, so every one of the 48 emitted normals has unit length
/// within fixed-point tolerance.
pub proof fn lemma_default_star_normals_unit(i: int)
    requires
        0 <= i < 48,
    ensures
        MILLI * MILLI - 6 * MILLI - 3 <= norm_sq(star_vertices(default_geometry())[i].normal),
        norm_sq(star_vertices(default_geometry())[i].normal) <= MILLI * MILLI + 2 * MILLI,
{
    let dg = default_geometry();
    let k = i / 3;
    lemma_flat_shading(dg, k);
    let p0 = star_vertices(dg)[3 * k].position;
    let p1 = star_vertices(dg)[3 * k + 2].position;
    let p2 = star_vertices(dg)[3 * k + 1].position;
    if k == 0 {
        assert(p0 == (Vec3i { x: 0i64, y: 0i64, z: 50i64 }));
        assert(p1 == (Vec3i { x: 50i64, y: 100i64, z: 0i64 }));
        assert(p2 == (Vec3i { x: 0i64, y: 800i64, z: 0i64 }));
        assert(face_cross_sq(
            Vec3i { x: 0i64, y: 0i64, z: 50i64 },
            Vec3i { x: 50i64, y: 100i64, z: 0i64 },
            Vec3i { x: 0i64, y: 800i64, z: 0i64 },
        ) >= MILLI * MILLI) by (nonlinear_arith);
    } else if k == 1 {
        assert(p0 == (Vec3i { x: 0i64, y: 0i64, z: 50i64 }));
        assert(p1 == (Vec3i { x: 300i64, y: 300i64, z: 0i64 }));
        assert(p2 == (Vec3i { x: 50i64, y: 100i64, z: 0i64 }));
        assert(face_cross_sq(
            Vec3i { x: 0i64, y: 0i64, z: 50i64 },
            Vec3i { x: 300i64, y: 300i64, z: 0i64 },
            Vec3i { x: 50i64, y: 100i64, z: 0i64 },
        ) >= MILLI * MILLI) by (nonlinear_arith);
    } else if k == 2 {
        assert(p0 == (Vec3i { x: 0i64, y: 0i64, z: 50i64 }));
        assert(p1 == (Vec3i { x: 100i64, y: 50i64, z: 0i64 }));
        assert(p2 == (Vec3i { x: 300i64, y: 300i64, z: 0i64 }));
        assert(face_cross_sq(
            Vec3i { x: 0i64, y: 0i64, z: 50i64 },
            Vec3i { x: 100i64, y: 50i64, z: 0i64 },
            Vec3i { x: 300i64, y: 300i64, z: 0i64 },
        ) >= MILLI * MILLI) by (nonlinear_arith);
    } else if k == 3 {
        assert(p0 == (Vec3i { x: 0i64, y: 0i64, z: 50i64 }));
        assert(p1 == (Vec3i { x: 800i64, y: 0i64, z: 0i64 }));
        assert(p2 == (Vec3i { x: 100i64, y: 50i64, z: 0i64 }));
        assert(face_cross_sq(
            Vec3i { x: 0i64, y: 0i64, z: 50i64 },
            Vec3i { x: 800i64, y: 0i64, z: 0i64 },
            Vec3i { x: 100i64, y: 50i64, z: 0i64 },
        ) >= MILLI * MILLI) by (nonlinear_arith);
    } else if k == 4 {
        assert(p0 == (Vec3i { x: 0i64, y: 0i64, z: 50i64 }));
        assert(p1 == (Vec3i { x: 100i64, y: -50i64, z: 0i64 }));
        assert(p2 == (Vec3i { x: 800i64, y: 0i64, z: 0i64 }));
        assert(face_cross_sq(
            Vec3i { x: 0i64, y: 0i64, z: 50i64 },
            Vec3i { x: 100i64, y: -50i64, z: 0i64 },
            Vec3i { x: 800i64, y: 0i64, z: 0i64 },
        ) >= MILLI * MILLI) by (nonlinear_arith);
    } else if k == 5 {
        assert(p0 == (Vec3i { x: 0i64, y: 0i64, z: 50i64 }));
        assert(p1 == (Vec3i { x: 300i64, y: -300i64, z: 0i64 }));
        assert(p2 == (Vec3i { x: 100i64, y: -50i64, z: 0i64 }));
        assert(face_cross_sq(
            Vec3i { x: 0i64, y: 0i64, z: 50i64 },
            Vec3i { x: 300i64, y: -300i64, z: 0i64 },
            Vec3i { x: 100i64, y: -50i64, z: 0i64 },
        ) >= MILLI * MILLI) by (nonlinear_arith);
    } else if k == 6 {
        assert(p0 == (Vec3i { x: 0i64, y: 0i64, z: 50i64 }));
        assert(p1 == (Vec3i { x: 50i64, y: -100i64, z: 0i64 }));
        assert(p2 == (Vec3i { x: 300i64, y: -300i64, z: 0i64 }));
        assert(face_cross_sq(
            Vec3i { x: 0i64, y: 0i64, z: 50i64 },
            Vec3i { x: 50i64, y: -100i64, z: 0i64 },
            Vec3i { x: 300i64, y: -300i64, z: 0i64 },
        ) >= MILLI * MILLI) by (nonlinear_arith);
    } else if k == 7 {
        assert(p0 == (Vec3i { x: 0i64, y: 0i64, z: 50i64 }));
        assert(p1 == (Vec3i { x: 0i64, y: -800i64, z: 0i64 }));
        assert(p2 == (Vec3i { x: 50i64, y: -100i64, z: 0i64 }));
        assert(face_cross_sq(
            Vec3i { x: 0i64, y: 0i64, z: 50i64 },
            Vec3i { x: 0i64, y: -800i64, z: 0i64 },
            Vec3i { x: 50i64, y: -100i64, z: 0i64 },
        ) >= MILLI * MILLI) by (nonlinear_arith);
    } else if k == 8 {
        assert(p0 == (Vec3i { x: 0i64, y: 0i64, z: 50i64 }));
        assert(p1 == (Vec3i { x: -50i64, y: -100i64, z: 0i64 }));
        assert(p2 == (Vec3i { x: 0i64, y: -800i64, z: 0i64 }));
        assert(face_cross_sq(
            Vec3i { x: 0i64, y: 0i64, z: 50i64 },
            Vec3i { x: -50i64, y: -100i64, z: 0i64 },
            Vec3i { x: 0i64, y: -800i64, z: 0i64 },
        ) >= MILLI * MILLI) by (nonlinear_arith);
    } else if k == 9 {
        assert(p0 == (Vec3i { x: 0i64, y: 0i64, z: 50i64 }));
        assert(p1 == (Vec3i { x: -300i64, y: -300i64, z: 0i64 }));
        assert(p2 == (Vec3i { x: -50i64, y: -100i64, z: 0i64 }));
        assert(face_cross_sq(
            Vec3i { x: 0i64, y: 0i64, z: 50i64 },
            Vec3i { x: -300i64, y: -300i64, z: 0i64 },
            Vec3i { x: -50i64, y: -100i64, z: 0i64 },
        ) >= MILLI * MILLI) by (nonlinear_arith);
    } else if k == 10 {
        assert(p0 == (Vec3i { x: 0i64, y: 0i64, z: 50i64 }));
        assert(p1 == (Vec3i { x: -100i64, y: -50i64, z: 0i64 }));
        assert(p2 == (Vec3i { x: -300i64, y: -300i64, z: 0i64 }));
        assert(face_cross_sq(
            Vec3i { x: 0i64, y: 0i64, z: 50i64 },
            Vec3i { x: -100i64, y: -50i64, z: 0i64 },
            Vec3i { x: -300i64, y: -300i64, z: 0i64 },
        ) >= MILLI * MILLI) by (nonlinear_arith);
    } else if k == 11 {
        assert(p0 == (Vec3i { x: 0i64, y: 0i64, z: 50i64 }));
        assert(p1 == (Vec3i { x: -800i64, y: 0i64, z: 0i64 }));
        assert(p2 == (Vec3i { x: -100i64, y: -50i64, z: 0i64 }));
        assert(face_cross_sq(
            Vec3i { x: 0i64, y: 0i64, z: 50i64 },
            Vec3i { x: -800i64, y: 0i64, z: 0i64 },
            Vec3i { x: -100i64, y: -50i64, z: 0i64 },
        ) >= MILLI * MILLI) by (nonlinear_arith);
    } else if k == 12 {
        assert(p0 == (Vec3i { x: 0i64, y: 0i64, z: 50i64 }));
        assert(p1 == (Vec3i { x: -100i64, y: 50i64, z: 0i64 }));
        assert(p2 == (Vec3i { x: -800i64, y: 0i64, z: 0i64 }));
        assert(face_cross_sq(
            Vec3i { x: 0i64, y: 0i64, z: 50i64 },
            Vec3i { x: -100i64, y: 50i64, z: 0i64 },
            Vec3i { x: -800i64, y: 0i64, z: 0i64 },
        ) >= MILLI * MILLI) by (nonlinear_arith);
    } else if k == 13 {
        assert(p0 == (Vec3i { x: 0i64, y: 0i64, z: 50i64 }));
        assert(p1 == (Vec3i { x: -300i64, y: 300i64, z: 0i64 }));
        assert(p2 == (Vec3i { x: -100i64, y: 50i64, z: 0i64 }));
        assert(face_cross_sq(
            Vec3i { x: 0i64, y: 0i64, z: 50i64 },
            Vec3i { x: -300i64, y: 300i64, z: 0i64 },
            Vec3i { x: -100i64, y: 50i64, z: 0i64 },
        ) >= MILLI * MILLI) by (nonlinear_arith);
    } else if k == 14 {
        assert(p0 == (Vec3i { x: 0i64, y: 0i64, z: 50i64 }));
        assert(p1 == (Vec3i { x: -50i64, y: 100i64, z: 0i64 }));
        assert(p2 == (Vec3i { x: -300i64, y: 300i64, z: 0i64 }));
        assert(face_cross_sq(
            Vec3i { x: 0i64, y: 0i64, z: 50i64 },
            Vec3i { x: -50i64, y: 100i64, z: 0i64 },
            Vec3i { x: -300i64, y: 300i64, z: 0i64 },
        ) >= MILLI * MILLI) by (nonlinear_arith);
    } else {
        assert(k == 15);
        assert(p0 == (Vec3i { x: 0i64, y: 0i64, z: 50i64 }));
        assert(p1 == (Vec3i { x: 0i64, y: 800i64, z: 0i64 }));
        assert(p2 == (Vec3i { x: -50i64, y: 100i64, z: 0i64 }));
        assert(face_cross_sq(
            Vec3i { x: 0i64, y: 0i64, z: 50i64 },
            Vec3i { x: 0i64, y: 800i64, z: 0i64 },
            Vec3i { x: -50i64, y: 100i64, z: 0i64 },
        ) >= MILLI * MILLI) by (nonlinear_arith);
    }
    lemma_sqrt_floor_at_least(face_cross_sq(p0, p1, p2), MILLI as int);
    lemma_face_normal_unit_length(p0, p1, p2);
    assert(star_vertices(dg)[i].normal == star_vertices(dg)[3 * k].normal);
}

/// One frame of "up" alone raises the light's y by exactly one step
/// and leaves x and z untouched (as long as y is not already at the
/// integer ceiling, where the step saturates instead).
pub proof fn lemma_update_up_moves_light(p: Vec3i, cs: ControlState)
    requires
        cs == (ControlState { move_up: true, move_down: false, move_left: false, move_right: false }),
        p.y + LIGHT_STEP <= i64::MAX,
    ensures
        update_position(p, cs) == (Vec3i { x: p.x, y: (p.y + LIGHT_STEP) as i64, z: p.z }),
{
    assert(sat_add(p.x as int, 0) == p.x as int);
}

/// Opposite directions pressed together cancel exactly: whenever up
/// matches down and left matches right, a frame of input leaves the
/// light position untouched.
pub proof fn lemma_update_opposites_cancel(p: Vec3i, cs: ControlState)
    requires
        cs.move_up == cs.move_down,
        cs.move_left == cs.move_right,
    ensures
        update_position(p, cs) == p,
{
    assert(step_x(cs) == 0);
    assert(step_y(cs) == 0);
    assert(sat_add(p.x as int, 0) == p.x as int);
    assert(sat_add(p.y as int, 0) == p.y as int);
}

/// Initializing twice without an intervening close leaks nothing:
/// after installing `ra` and then `rb`, the star holds `rb`, the
/// second install handed `ra` back for release, and the first handed
/// back whatever the star held before.
pub proof fn lemma_reinstall_frees_previous(s: ChristmasStar, ra: GlResource, rb: GlResource)
    ensures
        with_resource(with_resource(s, ra), rb).resource == rb,
        with_resource(s, ra).resource == ra,
{
}

/// Closing from any state — a full init, one abandoned part way, or
/// an already-closed star — lands in the all-zero handle state, and
/// closing again changes nothing and frees only zeros.
pub proof fn lemma_close_from_any_state(s: ChristmasStar)
    ensures
        resource_uninit(with_resource(s, zero_resource()).resource),
        with_resource(with_resource(s, zero_resource()), zero_resource()) == with_resource(s, zero_resource()),
        with_resource(s, zero_resource()).resource == zero_resource(),
{
}

} // verus!
