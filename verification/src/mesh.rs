//! Mesh generation for the four-pointed star.
//!
//! One quadrant is built from an apex raised above the center, two
//! canyon points, a short spike tip and two long spike tips; four
//! triangular faces share the apex. The full star mirrors the quadrant
//! four times with sign-flipped offsets, giving 48 vertices (4
//! quadrants x 4 faces x 3 corners) with flat per-face normals and one
//! shared diffuse color.

use vstd::prelude::*;
use crate::geometry::{Vec3i, Col4i, vec3_bounded, MILLI, PARAM_BOUND};
use crate::normal::{face_normal, calculate_normal, lemma_face_normal_bounded};

verus! {

/// One mesh vertex: position, flat-shading normal, diffuse color,
/// all in fixed-point milli-units.
#[derive(Clone, Copy, PartialEq, Eq, Structural, Debug)]
pub struct Vertex {
    pub position: Vec3i,
    pub normal: Vec3i,
    pub diffuse_color: Col4i,
}

impl Vertex {
    pub fn new(pos: Vec3i, norm: Vec3i, diffuse: Col4i) -> (r: Vertex)
        ensures
            r == (Vertex { position: pos, normal: norm, diffuse_color: diffuse }),
    {
        Vertex { position: pos, normal: norm, diffuse_color: diffuse }
    }
}

/// The star's shape parameters: center, the two canyon notch offsets,
/// the two spike lengths and the slab thickness.
#[derive(Clone, Copy, PartialEq, Eq, Structural, Debug)]
pub struct Geometry {
    pub center: Vec3i,
    pub left_canyon_offset: Vec3i,
    pub right_canyon_offset: Vec3i,
    pub long_spike_length: i64,
    pub short_spike_length: i64,
    pub thickness: i64,
}

/// Valid shape parameters: lengths are non-negative and every
/// coordinate is small enough that all derived vertex arithmetic is
/// exact.
pub open spec fn wf_geometry(g: Geometry) -> bool {
    &&& vec3_bounded(g.center, PARAM_BOUND as int)
    &&& vec3_bounded(g.left_canyon_offset, PARAM_BOUND as int)
    &&& vec3_bounded(g.right_canyon_offset, PARAM_BOUND as int)
    &&& 0 <= g.long_spike_length <= PARAM_BOUND
    &&& 0 <= g.short_spike_length <= PARAM_BOUND
    &&& 0 <= g.thickness <= PARAM_BOUND
}

/// Runtime check for `wf_geometry`, for callers outside verified
/// code.
pub fn is_wf_geometry(g: &Geometry) -> (b: bool)
    ensures
        b == wf_geometry(*g),
{
    -PARAM_BOUND <= g.center.x && g.center.x <= PARAM_BOUND
        && -PARAM_BOUND <= g.center.y && g.center.y <= PARAM_BOUND
        && -PARAM_BOUND <= g.center.z && g.center.z <= PARAM_BOUND
        && -PARAM_BOUND <= g.left_canyon_offset.x && g.left_canyon_offset.x <= PARAM_BOUND
        && -PARAM_BOUND <= g.left_canyon_offset.y && g.left_canyon_offset.y <= PARAM_BOUND
        && -PARAM_BOUND <= g.left_canyon_offset.z && g.left_canyon_offset.z <= PARAM_BOUND
        && -PARAM_BOUND <= g.right_canyon_offset.x && g.right_canyon_offset.x <= PARAM_BOUND
        && -PARAM_BOUND <= g.right_canyon_offset.y && g.right_canyon_offset.y <= PARAM_BOUND
        && -PARAM_BOUND <= g.right_canyon_offset.z && g.right_canyon_offset.z <= PARAM_BOUND
        && 0 <= g.long_spike_length && g.long_spike_length <= PARAM_BOUND
        && 0 <= g.short_spike_length && g.short_spike_length <= PARAM_BOUND
        && 0 <= g.thickness && g.thickness <= PARAM_BOUND
}

/// The one diffuse color every star vertex carries: opaque yellow.
pub open spec fn diffuse_yellow() -> Col4i {
    Col4i { r: 900, g: 900, b: 0, a: 1000 }
}

/// The twelve vertices of one quadrant: four faces sharing the apex
/// `center + depth` along the extrusion axis, each with its own flat
/// normal.
pub open spec fn partial_vertices(
    center: Vec3i,
    left_canyon_offset: Vec3i,
    right_canyon_offset: Vec3i,
    left_long_spike: Vec3i,
    right_long_spike: Vec3i,
    short_spike: Vec3i,
    depth: i64,
) -> Seq<Vertex> {
    let c = Vec3i { x: center.x, y: center.y, z: (center.z + depth) as i64 };
    let lc = Vec3i {
        x: (center.x + left_canyon_offset.x) as i64,
        y: (center.y + left_canyon_offset.y) as i64,
        z: center.z,
    };
    let rc = Vec3i {
        x: (center.x + right_canyon_offset.x) as i64,
        y: (center.y + right_canyon_offset.y) as i64,
        z: center.z,
    };
    let sv = Vec3i {
        x: (center.x + short_spike.x) as i64,
        y: (center.y + short_spike.y) as i64,
        z: center.z,
    };
    let ll = Vec3i {
        x: (center.x + left_long_spike.x) as i64,
        y: (center.y + left_long_spike.y) as i64,
        z: center.z,
    };
    let rl = Vec3i {
        x: (center.x + right_long_spike.x) as i64,
        y: (center.y + right_long_spike.y) as i64,
        z: center.z,
    };
    let n0 = face_normal(c, lc, ll);
    let n1 = face_normal(c, sv, lc);
    let n2 = face_normal(c, rc, sv);
    let n3 = face_normal(c, rl, rc);
    seq![
        Vertex { position: c, normal: n0, diffuse_color: diffuse_yellow() },
        Vertex { position: ll, normal: n0, diffuse_color: diffuse_yellow() },
        Vertex { position: lc, normal: n0, diffuse_color: diffuse_yellow() },
        Vertex { position: c, normal: n1, diffuse_color: diffuse_yellow() },
        Vertex { position: lc, normal: n1, diffuse_color: diffuse_yellow() },
        Vertex { position: sv, normal: n1, diffuse_color: diffuse_yellow() },
        Vertex { position: c, normal: n2, diffuse_color: diffuse_yellow() },
        Vertex { position: sv, normal: n2, diffuse_color: diffuse_yellow() },
        Vertex { position: rc, normal: n2, diffuse_color: diffuse_yellow() },
        Vertex { position: c, normal: n3, diffuse_color: diffuse_yellow() },
        Vertex { position: rc, normal: n3, diffuse_color: diffuse_yellow() },
        Vertex { position: rl, normal: n3, diffuse_color: diffuse_yellow() },
    ]
}

/// Appends the twelve vertices of one quadrant to `vertices`.
pub fn add_partial_vertices(
    center: Vec3i,
    left_canyon_offset: Vec3i,
    right_canyon_offset: Vec3i,
    left_long_spike: Vec3i,
    right_long_spike: Vec3i,
    short_spike: Vec3i,
    depth: i64,
    vertices: &mut Vec<Vertex>,
)
    requires
        vec3_bounded(center, PARAM_BOUND as int),
        vec3_bounded(left_canyon_offset, PARAM_BOUND as int),
        vec3_bounded(right_canyon_offset, PARAM_BOUND as int),
        vec3_bounded(left_long_spike, PARAM_BOUND as int),
        vec3_bounded(right_long_spike, PARAM_BOUND as int),
        vec3_bounded(short_spike, PARAM_BOUND as int),
        0 <= depth <= PARAM_BOUND,
        old(vertices)@.len() + 12 <= usize::MAX,
    ensures
        final(vertices)@ == old(vertices)@ + partial_vertices(
            center,
            left_canyon_offset,
            right_canyon_offset,
            left_long_spike,
            right_long_spike,
            short_spike,
            depth,
        ),
{
    let c = Vec3i::new(center.x, center.y, center.z + depth);
    let lc = Vec3i::new(center.x + left_canyon_offset.x, center.y + left_canyon_offset.y, center.z);
    let rc = Vec3i::new(center.x + right_canyon_offset.x, center.y + right_canyon_offset.y, center.z);
    let sv = Vec3i::new(center.x + short_spike.x, center.y + short_spike.y, center.z);
    let ll = Vec3i::new(center.x + left_long_spike.x, center.y + left_long_spike.y, center.z);
    let rl = Vec3i::new(center.x + right_long_spike.x, center.y + right_long_spike.y, center.z);
    let diffuse = Col4i { r: 900, g: 900, b: 0, a: 1000 };

    let n0 = calculate_normal(&c, &lc, &ll);
    vertices.push(Vertex::new(c, n0, diffuse));
    vertices.push(Vertex::new(ll, n0, diffuse));
    vertices.push(Vertex::new(lc, n0, diffuse));

    let n1 = calculate_normal(&c, &sv, &lc);
    vertices.push(Vertex::new(c, n1, diffuse));
    vertices.push(Vertex::new(lc, n1, diffuse));
    vertices.push(Vertex::new(sv, n1, diffuse));

    let n2 = calculate_normal(&c, &rc, &sv);
    vertices.push(Vertex::new(c, n2, diffuse));
    vertices.push(Vertex::new(sv, n2, diffuse));
    vertices.push(Vertex::new(rc, n2, diffuse));

    let n3 = calculate_normal(&c, &rl, &rc);
    vertices.push(Vertex::new(c, n3, diffuse));
    vertices.push(Vertex::new(rc, n3, diffuse));
    vertices.push(Vertex::new(rl, n3, diffuse));

    proof {
        assert(vertices@ =~= old(vertices)@ + partial_vertices(
            center,
            left_canyon_offset,
            right_canyon_offset,
            left_long_spike,
            right_long_spike,
            short_spike,
            depth,
        ));
    }
}

/// The full star mesh: four quadrants, each a sign-mirrored copy of
/// the first, in the order top-right, bottom-right, bottom-left,
/// top-left.
pub open spec fn star_vertices(g: Geometry) -> Seq<Vertex> {
    let c = g.center;
    let ls = g.long_spike_length;
    let ss = g.short_spike_length;
    let lco = g.left_canyon_offset;
    let rco = g.right_canyon_offset;
    let depth = ((g.thickness as int) / 2) as i64;
    partial_vertices(
        c,
        lco,
        rco,
        Vec3i { x: 0, y: ls, z: 0 },
        Vec3i { x: ls, y: 0, z: 0 },
        Vec3i { x: ss, y: ss, z: 0 },
        depth,
    ) + partial_vertices(
        c,
        Vec3i { x: rco.x, y: (-rco.y) as i64, z: lco.z },
        Vec3i { x: lco.x, y: (-lco.y) as i64, z: rco.z },
        Vec3i { x: ls, y: 0, z: 0 },
        Vec3i { x: 0, y: (-ls) as i64, z: 0 },
        Vec3i { x: ss, y: (-ss) as i64, z: 0 },
        depth,
    ) + partial_vertices(
        c,
        Vec3i { x: (-lco.x) as i64, y: (-lco.y) as i64, z: lco.z },
        Vec3i { x: (-rco.x) as i64, y: (-rco.y) as i64, z: rco.z },
        Vec3i { x: 0, y: (-ls) as i64, z: 0 },
        Vec3i { x: (-ls) as i64, y: 0, z: 0 },
        Vec3i { x: (-ss) as i64, y: (-ss) as i64, z: 0 },
        depth,
    ) + partial_vertices(
        c,
        Vec3i { x: (-rco.x) as i64, y: rco.y, z: lco.z },
        Vec3i { x: (-lco.x) as i64, y: lco.y, z: rco.z },
        Vec3i { x: (-ls) as i64, y: 0, z: 0 },
        Vec3i { x: 0, y: ls, z: 0 },
        Vec3i { x: (-ss) as i64, y: ss, z: 0 },
        depth,
    )
}

/// Builds the star's 48-vertex triangle list. Pure and deterministic:
/// the result is exactly `star_vertices(*geom)`.
pub fn generate_vertices(geom: &Geometry) -> (r: Vec<Vertex>)
    requires
        wf_geometry(*geom),
    ensures
        r@ == star_vertices(*geom),
        r@.len() == 48,
{
    let c = geom.center;
    let ls = geom.long_spike_length;
    let ss = geom.short_spike_length;
    let lco = geom.left_canyon_offset;
    let rco = geom.right_canyon_offset;
    let depth: i64 = ((geom.thickness as u64) / 2) as i64;

    let mut vertices: Vec<Vertex> = Vec::new();
    // top right
    add_partial_vertices(
        c,
        lco,
        rco,
        Vec3i::new(0, ls, 0),
        Vec3i::new(ls, 0, 0),
        Vec3i::new(ss, ss, 0),
        depth,
        &mut vertices,
    );
    // bottom right
    add_partial_vertices(
        c,
        Vec3i::new(rco.x, -rco.y, lco.z),
        Vec3i::new(lco.x, -lco.y, rco.z),
        Vec3i::new(ls, 0, 0),
        Vec3i::new(0, -ls, 0),
        Vec3i::new(ss, -ss, 0),
        depth,
        &mut vertices,
    );
    // bottom left
    add_partial_vertices(
        c,
        Vec3i::new(-lco.x, -lco.y, lco.z),
        Vec3i::new(-rco.x, -rco.y, rco.z),
        Vec3i::new(0, -ls, 0),
        Vec3i::new(-ls, 0, 0),
        Vec3i::new(-ss, -ss, 0),
        depth,
        &mut vertices,
    );
    // top left
    add_partial_vertices(
        c,
        Vec3i::new(-rco.x, rco.y, lco.z),
        Vec3i::new(-lco.x, lco.y, rco.z),
        Vec3i::new(-ls, 0, 0),
        Vec3i::new(0, ls, 0),
        Vec3i::new(-ss, ss, 0),
        depth,
        &mut vertices,
    );
    proof {
        assert(vertices@ =~= star_vertices(*geom));
    }
    vertices
}

/// The four mirrored long-spike tips stand where the sign pattern
/// says: the top-right quadrant's first long tip is the center raised
/// by the long spike length along y, and the bottom-left quadrant's
/// is its mirror image through the center.
pub proof fn lemma_mirrored_spike_tips(g: Geometry)
    requires
        wf_geometry(g),
    ensures
        star_vertices(g).len() == 48,
        star_vertices(g)[1].position == (Vec3i {
            x: g.center.x,
            y: (g.center.y + g.long_spike_length) as i64,
            z: g.center.z,
        }),
        star_vertices(g)[25].position == (Vec3i {
            x: g.center.x,
            y: (g.center.y - g.long_spike_length) as i64,
            z: g.center.z,
        }),
{
}

/// Shading is flat: the three corners of each of the sixteen faces
/// carry one and the same normal, and that normal is the face's own —
/// computed from the face's corner positions in the winding the
/// generator uses (apex, right corner, left corner).
pub proof fn lemma_flat_shading(g: Geometry, k: int)
    requires
        wf_geometry(g),
        0 <= k < 16,
    ensures
        star_vertices(g)[3 * k].normal == star_vertices(g)[3 * k + 1].normal,
        star_vertices(g)[3 * k + 1].normal == star_vertices(g)[3 * k + 2].normal,
        star_vertices(g)[3 * k].normal == face_normal(
            star_vertices(g)[3 * k].position,
            star_vertices(g)[3 * k + 2].position,
            star_vertices(g)[3 * k + 1].position,
        ),
{
}

/// No emitted normal overshoots one unit in any component, so the
/// whole mesh can be handed on in any format whose normal channel
/// expects values between minus one and one.
pub proof fn lemma_star_normals_bounded(g: Geometry, i: int)
    requires
        wf_geometry(g),
        0 <= i < 48,
    ensures
        vec3_bounded(star_vertices(g)[i].normal, MILLI as int),
{
    let k = i / 3;
    lemma_flat_shading(g, k);
    lemma_face_normal_bounded(
        star_vertices(g)[3 * k].position,
        star_vertices(g)[3 * k + 2].position,
        star_vertices(g)[3 * k + 1].position,
    );
    assert(i == 3 * k || i == 3 * k + 1 || i == 3 * k + 2);
}

/// Every emitted position stays within twice the parameter bound of
/// the origin: the mesh cannot wander outside the box its parameters
/// span.
pub proof fn lemma_star_positions_bounded(g: Geometry, i: int)
    requires
        wf_geometry(g),
        0 <= i < 48,
    ensures
        vec3_bounded(star_vertices(g)[i].position, 2 * PARAM_BOUND as int),
{
}

/// The ten scalars of one vertex in attribute-stream order: position,
/// then normal, then diffuse color.
pub open spec fn vertex_fields(v: Vertex) -> Seq<i64> {
    seq![
        v.position.x,
        v.position.y,
        v.position.z,
        v.normal.x,
        v.normal.y,
        v.normal.z,
        v.diffuse_color.r,
        v.diffuse_color.g,
        v.diffuse_color.b,
        v.diffuse_color.a,
    ]
}

/// The vertex list laid out as one flat scalar stream, ten scalars
/// per record.
pub open spec fn flat_vertices(s: Seq<Vertex>) -> Seq<i64>
    decreases s.len(),
{
    if s.len() == 0 {
        Seq::empty()
    } else {
        flat_vertices(s.drop_last()) + vertex_fields(s.last())
    }
}

/// The flat stream holds exactly ten scalars per vertex.
pub proof fn lemma_flat_len(s: Seq<Vertex>)
    ensures
        flat_vertices(s).len() == 10 * s.len(),
    decreases s.len(),
{
    if s.len() > 0 {
        lemma_flat_len(s.drop_last());
    }
}

/// Record `i` of the flat stream is vertex `i`'s ten scalars: the
/// stride is ten scalars, the normal sits three scalars in and the
/// color six, exactly the layout the vertex attributes advertise.
pub proof fn lemma_flat_index(s: Seq<Vertex>, i: int)
    requires
        0 <= i < s.len(),
    ensures
        flat_vertices(s).subrange(10 * i, 10 * i + 10) == vertex_fields(s[i]),
    decreases s.len(),
{
    lemma_flat_len(s);
    lemma_flat_len(s.drop_last());
    if i == s.len() - 1 {
        assert(flat_vertices(s).subrange(10 * i, 10 * i + 10) =~= vertex_fields(s[i]));
    } else {
        lemma_flat_index(s.drop_last(), i);
        assert(s.drop_last()[i] == s[i]);
        assert(flat_vertices(s).subrange(10 * i, 10 * i + 10) =~= flat_vertices(s.drop_last()).subrange(
            10 * i,
            10 * i + 10,
        ));
    }
}

/// Lays the vertex list out as a flat attribute stream the host can
/// upload: ten scalars per vertex in record order.
pub fn flatten_vertices(vs: &Vec<Vertex>) -> (r: Vec<i64>)
    requires
        vs@.len() * 10 <= usize::MAX,
    ensures
        r@ == flat_vertices(vs@),
        r@.len() == 10 * vs@.len(),
{
    let mut r: Vec<i64> = Vec::new();
    let mut i: usize = 0;
    proof {
        lemma_flat_len(vs@);
    }
    while i < vs.len()
        invariant
            0 <= i <= vs@.len(),
            vs@.len() * 10 <= usize::MAX,
            r@ == flat_vertices(vs@.subrange(0, i as int)),
            r@.len() == 10 * i,
        decreases vs@.len() - i,
    {
        proof {
            lemma_flat_len(vs@.subrange(0, i as int));
        }
        let v = vs[i];
        r.push(v.position.x);
        r.push(v.position.y);
        r.push(v.position.z);
        r.push(v.normal.x);
        r.push(v.normal.y);
        r.push(v.normal.z);
        r.push(v.diffuse_color.r);
        r.push(v.diffuse_color.g);
        r.push(v.diffuse_color.b);
        r.push(v.diffuse_color.a);
        proof {
            let pre = vs@.subrange(0, i as int);
            let post = vs@.subrange(0, i as int + 1);
            assert(post.drop_last() =~= pre);
            assert(post.last() == vs@[i as int]);
            assert(r@ =~= flat_vertices(pre) + vertex_fields(vs@[i as int]));
            assert(r@ =~= flat_vertices(post));
        }
        i = i + 1;
    }
    proof {
        assert(vs@.subrange(0, vs@.len() as int) =~= vs@);
        lemma_flat_len(vs@);
    }
    r
}

} // verus!
