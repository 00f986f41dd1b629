//! Face-normal computation in fixed-point arithmetic.
//!
//! A face normal is the cross product of two edge vectors, scaled to
//! (approximately) unit length: each component of the result is
//! `component * MILLI / len`, where `len` is the integer square root of
//! the cross product's squared length. A degenerate face (zero cross
//! product) yields the zero vector instead of erroring, collapsing the
//! triangle as the shape parameters collapse.

use vstd::prelude::*;
use vstd::arithmetic::div_mod::{lemma_fundamental_div_mod, lemma_mod_bound, lemma_div_pos_is_pos};
use crate::geometry::{Vec3i, vec3_bounded, norm_sq, MILLI, COORD_BOUND};
use crate::sqrt::{sqrt_floor, lemma_sqrt_floor_exists, lemma_sqrt_floor_unique, isqrt};

verus! {

/// Magnitude bound on a cross-product component of two edges between
/// `COORD_BOUND`-bounded points: `2 * (2 * COORD_BOUND)^2`.
pub const CROSS_BOUND: i64 = 8_000_000_000_000_000_000;

/// First component of the cross product of `a` and `b`.
pub open spec fn cross_x(a: Vec3i, b: Vec3i) -> int {
    a.y * b.z - a.z * b.y
}

/// Second component of the cross product of `a` and `b`.
pub open spec fn cross_y(a: Vec3i, b: Vec3i) -> int {
    a.z * b.x - a.x * b.z
}

/// Third component of the cross product of `a` and `b`.
pub open spec fn cross_z(a: Vec3i, b: Vec3i) -> int {
    a.x * b.y - a.y * b.x
}

/// `n * MILLI / l`, rounded toward zero.
pub open spec fn scaled_div(n: int, l: int) -> int {
    if n >= 0 {
        (n * MILLI) / l
    } else {
        -(((-n) * MILLI) / l)
    }
}

/// The fixed-point unit vector in the direction `(nx, ny, nz)`:
/// each component scaled by `MILLI` over the length's square-root
/// floor. Zero input yields the zero vector.
pub open spec fn normalized_milli(nx: int, ny: int, nz: int) -> Vec3i {
    let q = nx * nx + ny * ny + nz * nz;
    let l = sqrt_floor(q);
    if l == 0 {
        Vec3i { x: 0, y: 0, z: 0 }
    } else {
        Vec3i { x: scaled_div(nx, l) as i64, y: scaled_div(ny, l) as i64, z: scaled_div(nz, l) as i64 }
    }
}

/// Squared length of the cross product of the two edges of the
/// triangle `(v0, v1, v2)`.
pub open spec fn face_cross_sq(v0: Vec3i, v1: Vec3i, v2: Vec3i) -> int {
    let e0 = (Vec3i { x: (v1.x - v0.x) as i64, y: (v1.y - v0.y) as i64, z: (v1.z - v0.z) as i64 });
    let e1 = (Vec3i { x: (v2.x - v0.x) as i64, y: (v2.y - v0.y) as i64, z: (v2.z - v0.z) as i64 });
    cross_x(e0, e1) * cross_x(e0, e1) + cross_y(e0, e1) * cross_y(e0, e1) + cross_z(e0, e1) * cross_z(e0, e1)
}

/// The flat-shading normal of the triangle `(v0, v1, v2)`:
/// `normalize(cross(v1 - v0, v2 - v0))` in fixed point.
pub open spec fn face_normal(v0: Vec3i, v1: Vec3i, v2: Vec3i) -> Vec3i {
    let e0 = (Vec3i { x: (v1.x - v0.x) as i64, y: (v1.y - v0.y) as i64, z: (v1.z - v0.z) as i64 });
    let e1 = (Vec3i { x: (v2.x - v0.x) as i64, y: (v2.y - v0.y) as i64, z: (v2.z - v0.z) as i64 });
    normalized_milli(cross_x(e0, e1), cross_y(e0, e1), cross_z(e0, e1))
}

/// The product of two numbers bounded by `m` in magnitude is bounded
/// by `m * m`.
pub proof fn lemma_product_bound(a: int, b: int, m: int)
    requires
        -m <= a <= m,
        -m <= b <= m,
    ensures
        -(m * m) <= a * b <= m * m,
{
    assert(-(m * m) <= a * b <= m * m) by (nonlinear_arith)
        requires
            -m <= a <= m,
            -m <= b <= m,
    ;
}

/// A square is never negative.
pub proof fn lemma_square_nonneg(a: int)
    ensures
        a * a >= 0,
{
    assert(a * a >= 0) by (nonlinear_arith);
}

/// Divide one non-negative scaled component by the length floor,
/// keeping the sign of the component.
fn scaled_div_exec(n: i64, l: u64) -> (r: i64)
    requires
        -CROSS_BOUND <= n <= CROSS_BOUND,
        l >= 1,
        n * n < (l + 1) * (l + 1),
    ensures
        r as int == scaled_div(n as int, l as int),
        -MILLI <= r <= MILLI,
{
    let a: u128 = if n >= 0 { n as u128 } else { (-n) as u128 };
    proof {
        assert(a as int * a as int == n as int * n as int) by (nonlinear_arith)
            requires
                a as int == if n as int >= 0 { n as int } else { -(n as int) },
        ;
        assert(a <= l) by (nonlinear_arith)
            requires
                (a as int) * (a as int) < ((l as int) + 1) * ((l as int) + 1),
                a >= 0,
                l >= 0,
        ;
    }
    let scaled: u128 = a * 1000;
    let c: u128 = scaled / (l as u128);
    proof {
        lemma_fundamental_div_mod(scaled as int, l as int);
        lemma_mod_bound(scaled as int, l as int);
        assert(c as int <= MILLI) by (nonlinear_arith)
            requires
                scaled as int == a as int * 1000,
                a <= l,
                l >= 1,
                l as int * (c as int) + (scaled as int % (l as int)) == scaled as int,
                0 <= scaled as int % (l as int),
        ;
    }
    if n >= 0 {
        c as i64
    } else {
        -(c as i64)
    }
}

/// The face normal of the triangle `(v0, v1, v2)`: the normalized
/// cross product of its edges, or the zero vector for a degenerate
/// (collinear or duplicate-corner) triangle.
pub fn calculate_normal(v0: &Vec3i, v1: &Vec3i, v2: &Vec3i) -> (r: Vec3i)
    requires
        vec3_bounded(*v0, COORD_BOUND as int),
        vec3_bounded(*v1, COORD_BOUND as int),
        vec3_bounded(*v2, COORD_BOUND as int),
    ensures
        r == face_normal(*v0, *v1, *v2),
        vec3_bounded(r, MILLI as int),
{
    let e0 = v1.sub(*v0);
    let e1 = v2.sub(*v0);
    proof {
        lemma_product_bound(e0.y as int, e1.z as int, 2 * COORD_BOUND as int);
        lemma_product_bound(e0.z as int, e1.y as int, 2 * COORD_BOUND as int);
        lemma_product_bound(e0.z as int, e1.x as int, 2 * COORD_BOUND as int);
        lemma_product_bound(e0.x as int, e1.z as int, 2 * COORD_BOUND as int);
        lemma_product_bound(e0.x as int, e1.y as int, 2 * COORD_BOUND as int);
        lemma_product_bound(e0.y as int, e1.x as int, 2 * COORD_BOUND as int);
    }
    let nx: i64 = ((e0.y as i128) * (e1.z as i128) - (e0.z as i128) * (e1.y as i128)) as i64;
    let ny: i64 = ((e0.z as i128) * (e1.x as i128) - (e0.x as i128) * (e1.z as i128)) as i64;
    let nz: i64 = ((e0.x as i128) * (e1.y as i128) - (e0.y as i128) * (e1.x as i128)) as i64;
    proof {
        lemma_product_bound(nx as int, nx as int, CROSS_BOUND as int);
        lemma_product_bound(ny as int, ny as int, CROSS_BOUND as int);
        lemma_product_bound(nz as int, nz as int, CROSS_BOUND as int);
        lemma_square_nonneg(nx as int);
        lemma_square_nonneg(ny as int);
        lemma_square_nonneg(nz as int);
    }
    let sx: u128 = ((nx as i128) * (nx as i128)) as u128;
    let sy: u128 = ((ny as i128) * (ny as i128)) as u128;
    let sz: u128 = ((nz as i128) * (nz as i128)) as u128;
    let q: u128 = sx + sy + sz;
    let l: u64 = isqrt(q);
    if l == 0 {
        Vec3i { x: 0, y: 0, z: 0 }
    } else {
        proof {
            lemma_sqrt_floor_exists(q as int);
            lemma_sqrt_floor_unique(q as int, l as int, sqrt_floor(q as int));
            assert(nx as int * nx as int <= q as int);
            assert(ny as int * ny as int <= q as int);
            assert(nz as int * nz as int <= q as int);
        }
        let rx = scaled_div_exec(nx, l);
        let ry = scaled_div_exec(ny, l);
        let rz = scaled_div_exec(nz, l);
        Vec3i { x: rx, y: ry, z: rz }
    }
}

/// A normalized vector has unit length, within fixed-point tolerance:
/// whenever the input's length floor is at least one unit (`MILLI`),
/// the squared length of `normalized_milli` lands within a sliver of
/// `MILLI * MILLI`.
pub proof fn lemma_normalized_unit_length(nx: int, ny: int, nz: int)
    requires
        sqrt_floor(nx * nx + ny * ny + nz * nz) >= MILLI,
    ensures
        MILLI * MILLI - 6 * MILLI - 3 <= norm_sq(normalized_milli(nx, ny, nz)),
        norm_sq(normalized_milli(nx, ny, nz)) <= MILLI * MILLI + 2 * MILLI,
{
    let q = nx * nx + ny * ny + nz * nz;
    let s = MILLI as int;
    lemma_square_nonneg(nx);
    lemma_square_nonneg(ny);
    lemma_square_nonneg(nz);
    lemma_sqrt_floor_exists(q);
    let l = sqrt_floor(q);
    assert(l >= s);
    assert(l * l <= q < (l + 1) * (l + 1));

    let ax = if nx >= 0 { nx } else { -nx };
    let ay = if ny >= 0 { ny } else { -ny };
    let az = if nz >= 0 { nz } else { -nz };
    assert(ax * ax == nx * nx && ay * ay == ny * ny && az * az == nz * nz) by (nonlinear_arith)
        requires
            ax == if nx >= 0 { nx } else { -nx },
            ay == if ny >= 0 { ny } else { -ny },
            az == if nz >= 0 { nz } else { -nz },
    ;
    assert(ax <= l && ay <= l && az <= l) by (nonlinear_arith)
        requires
            ax * ax <= q,
            ay * ay <= q,
            az * az <= q,
            q < (l + 1) * (l + 1),
            ax >= 0,
            ay >= 0,
            az >= 0,
            l >= 0,
    ;

    let cx = (ax * s) / l;
    let cy = (ay * s) / l;
    let cz = (az * s) / l;
    lemma_fundamental_div_mod(ax * s, l);
    lemma_fundamental_div_mod(ay * s, l);
    lemma_fundamental_div_mod(az * s, l);
    lemma_mod_bound(ax * s, l);
    lemma_mod_bound(ay * s, l);
    lemma_mod_bound(az * s, l);
    assert(ax * s >= 0 && ay * s >= 0 && az * s >= 0) by (nonlinear_arith)
        requires
            ax >= 0,
            ay >= 0,
            az >= 0,
            s >= 1,
    ;
    lemma_div_pos_is_pos(ax * s, l);
    lemma_div_pos_is_pos(ay * s, l);
    lemma_div_pos_is_pos(az * s, l);
    assert(l * cx <= ax * s && l * cy <= ay * s && l * cz <= az * s);
    assert(l * cx + l >= ax * s + 1 && l * cy + l >= ay * s + 1 && l * cz + l >= az * s + 1);
    assert(cx <= s && cy <= s && cz <= s) by (nonlinear_arith)
        requires
            l * cx <= ax * s,
            l * cy <= ay * s,
            l * cz <= az * s,
            ax <= l,
            ay <= l,
            az <= l,
            l >= 1,
            s >= 1,
            cx >= 0,
            cy >= 0,
            cz >= 0,
    ;

    let t = cx * cx + cy * cy + cz * cz;
    assert(q <= l * l + 2 * l) by (nonlinear_arith)
        requires
            q < (l + 1) * (l + 1),
    ;

    // Upper bound: l^2 t <= q s^2 <= (l^2 + 2l) s^2, so t <= s^2 + 2s.
    assert(l * l * (cx * cx) <= (ax * ax) * (s * s)) by (nonlinear_arith)
        requires
            0 <= l * cx,
            l * cx <= ax * s,
    ;
    assert(l * l * (cy * cy) <= (ay * ay) * (s * s)) by (nonlinear_arith)
        requires
            0 <= l * cy,
            l * cy <= ay * s,
    ;
    assert(l * l * (cz * cz) <= (az * az) * (s * s)) by (nonlinear_arith)
        requires
            0 <= l * cz,
            l * cz <= az * s,
    ;
    assert(l * l * t <= q * (s * s)) by (nonlinear_arith)
        requires
            t == cx * cx + cy * cy + cz * cz,
            q == ax * ax + ay * ay + az * az,
            l * l * (cx * cx) <= (ax * ax) * (s * s),
            l * l * (cy * cy) <= (ay * ay) * (s * s),
            l * l * (cz * cz) <= (az * az) * (s * s),
    ;
    assert(t <= s * s + 2 * s) by (nonlinear_arith)
        requires
            l * l * t <= q * (s * s),
            q <= l * l + 2 * l,
            l >= s,
            s >= 1,
    ;

    // Lower bound: (l c + l)^2 >= (a s)^2 per axis, so
    // l^2 t + 2 l^2 (cx+cy+cz) + 3 l^2 >= q s^2 >= l^2 s^2.
    assert(l * l * (cx * cx) + 2 * (l * l) * cx + l * l >= (ax * ax) * (s * s)) by (nonlinear_arith)
        requires
            l * cx + l >= ax * s + 1,
            ax * s >= 0,
            l >= 1,
            cx >= 0,
    ;
    assert(l * l * (cy * cy) + 2 * (l * l) * cy + l * l >= (ay * ay) * (s * s)) by (nonlinear_arith)
        requires
            l * cy + l >= ay * s + 1,
            ay * s >= 0,
            l >= 1,
            cy >= 0,
    ;
    assert(l * l * (cz * cz) + 2 * (l * l) * cz + l * l >= (az * az) * (s * s)) by (nonlinear_arith)
        requires
            l * cz + l >= az * s + 1,
            az * s >= 0,
            l >= 1,
            cz >= 0,
    ;
    assert(l * l * t + 2 * (l * l) * (cx + cy + cz) + 3 * (l * l) >= q * (s * s)) by (nonlinear_arith)
        requires
            t == cx * cx + cy * cy + cz * cz,
            q == ax * ax + ay * ay + az * az,
            l * l * (cx * cx) + 2 * (l * l) * cx + l * l >= (ax * ax) * (s * s),
            l * l * (cy * cy) + 2 * (l * l) * cy + l * l >= (ay * ay) * (s * s),
            l * l * (cz * cz) + 2 * (l * l) * cz + l * l >= (az * az) * (s * s),
    ;
    assert(q * (s * s) >= (l * l) * (s * s)) by (nonlinear_arith)
        requires
            q >= l * l,
            s >= 1,
    ;
    assert(t >= s * s - 6 * s - 3) by (nonlinear_arith)
        requires
            l * l * t + 2 * (l * l) * (cx + cy + cz) + 3 * (l * l) >= (l * l) * (s * s),
            cx <= s,
            cy <= s,
            cz <= s,
            l >= 1,
            s >= 1,
    ;

    // The normalized components are +/- cx, cy, cz, so the squared
    // length is exactly t.
    let r = normalized_milli(nx, ny, nz);
    assert(r.x as int == scaled_div(nx, l) && r.y as int == scaled_div(ny, l) && r.z as int == scaled_div(nz, l));
    assert(norm_sq(r) == t) by (nonlinear_arith)
        requires
            r.x as int == if nx >= 0 { cx } else { -cx },
            r.y as int == if ny >= 0 { cy } else { -cy },
            r.z as int == if nz >= 0 { cz } else { -cz },
            t == cx * cx + cy * cy + cz * cz,
            norm_sq(r) == (r.x as int) * (r.x as int) + (r.y as int) * (r.y as int) + (r.z as int) * (r.z as int),
    ;
}

/// Normalization never overshoots: every component of a normalized
/// vector lies between `-MILLI` and `MILLI`, whatever the input.
pub proof fn lemma_normalized_bounded(nx: int, ny: int, nz: int)
    ensures
        vec3_bounded(normalized_milli(nx, ny, nz), MILLI as int),
{
    let q = nx * nx + ny * ny + nz * nz;
    let s = MILLI as int;
    lemma_square_nonneg(nx);
    lemma_square_nonneg(ny);
    lemma_square_nonneg(nz);
    lemma_sqrt_floor_exists(q);
    let l = sqrt_floor(q);
    if l != 0 {
        let ax = if nx >= 0 { nx } else { -nx };
        let ay = if ny >= 0 { ny } else { -ny };
        let az = if nz >= 0 { nz } else { -nz };
        assert(ax * ax == nx * nx && ay * ay == ny * ny && az * az == nz * nz) by (nonlinear_arith)
            requires
                ax == if nx >= 0 { nx } else { -nx },
                ay == if ny >= 0 { ny } else { -ny },
                az == if nz >= 0 { nz } else { -nz },
        ;
        assert(ax <= l && ay <= l && az <= l) by (nonlinear_arith)
            requires
                ax * ax <= q,
                ay * ay <= q,
                az * az <= q,
                q < (l + 1) * (l + 1),
                ax >= 0,
                ay >= 0,
                az >= 0,
                l >= 0,
        ;
        assert(ax * s >= 0 && ay * s >= 0 && az * s >= 0) by (nonlinear_arith)
            requires
                ax >= 0,
                ay >= 0,
                az >= 0,
                s >= 1,
        ;
        lemma_fundamental_div_mod(ax * s, l);
        lemma_fundamental_div_mod(ay * s, l);
        lemma_fundamental_div_mod(az * s, l);
        lemma_mod_bound(ax * s, l);
        lemma_mod_bound(ay * s, l);
        lemma_mod_bound(az * s, l);
        lemma_div_pos_is_pos(ax * s, l);
        lemma_div_pos_is_pos(ay * s, l);
        lemma_div_pos_is_pos(az * s, l);
        assert((ax * s) / l <= s && (ay * s) / l <= s && (az * s) / l <= s) by (nonlinear_arith)
            requires
                l * ((ax * s) / l) <= ax * s,
                l * ((ay * s) / l) <= ay * s,
                l * ((az * s) / l) <= az * s,
                ax <= l,
                ay <= l,
                az <= l,
                l >= 1,
                s >= 1,
                (ax * s) / l >= 0,
                (ay * s) / l >= 0,
                (az * s) / l >= 0,
        ;
    }
}

/// Every face normal is componentwise within one unit, degenerate
/// faces included.
pub proof fn lemma_face_normal_bounded(v0: Vec3i, v1: Vec3i, v2: Vec3i)
    ensures
        vec3_bounded(face_normal(v0, v1, v2), MILLI as int),
{
    let e0 = (Vec3i { x: (v1.x - v0.x) as i64, y: (v1.y - v0.y) as i64, z: (v1.z - v0.z) as i64 });
    let e1 = (Vec3i { x: (v2.x - v0.x) as i64, y: (v2.y - v0.y) as i64, z: (v2.z - v0.z) as i64 });
    lemma_normalized_bounded(cross_x(e0, e1), cross_y(e0, e1), cross_z(e0, e1));
}

/// Unit normals at the face level: any triangle whose edge cross
/// product is at least one unit long (the non-degenerate case) gets a
/// flat-shading normal of unit length within fixed-point tolerance.
pub proof fn lemma_face_normal_unit_length(v0: Vec3i, v1: Vec3i, v2: Vec3i)
    requires
        sqrt_floor(face_cross_sq(v0, v1, v2)) >= MILLI,
    ensures
        MILLI * MILLI - 6 * MILLI - 3 <= norm_sq(face_normal(v0, v1, v2)),
        norm_sq(face_normal(v0, v1, v2)) <= MILLI * MILLI + 2 * MILLI,
{
    let e0 = (Vec3i { x: (v1.x - v0.x) as i64, y: (v1.y - v0.y) as i64, z: (v1.z - v0.z) as i64 });
    let e1 = (Vec3i { x: (v2.x - v0.x) as i64, y: (v2.y - v0.y) as i64, z: (v2.z - v0.z) as i64 });
    lemma_normalized_unit_length(cross_x(e0, e1), cross_y(e0, e1), cross_z(e0, e1));
}

} // verus!
