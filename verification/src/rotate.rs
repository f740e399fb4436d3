//! The rotator: applies a per-frame Euler rotation (X, then Y, then Z) to a
//! vertex, about a pivot shifted one unit along the depth axis.
//!
//! The composition order is deliberately idiosyncratic and is reproduced
//! exactly: the Y stage consumes the X-rotated depth, and the Z stage
//! consumes the Y-rotated x together with the X-stage y (not a combined
//! rotation matrix).

use crate::fixed::{lemma_mul_fits, lemma_tdiv_bound, lemma_tdiv_exact, tdiv, MAX_COORD, SCALE,
    VERTEX_BOUND};
use vstd::prelude::*;

verus! {

/// A point of camera space, coordinates in fixed-point units (`SCALE` = 1.0).
#[derive(Clone, Copy, PartialEq, Eq, Structural, Debug)]
pub struct Vertex {
    pub x: i64,
    pub y: i64,
    pub z: i64,
}

/// The six trigonometric values of a per-frame rotation: sine and cosine of
/// the angles about X (`alpha`), Y (`beta`) and Z (`gamma`), in fixed-point
/// units. Sines and cosines of real angles always satisfy `wf`.
#[derive(Clone, Copy, PartialEq, Eq, Structural, Debug)]
pub struct Rotation {
    pub sin_a: i64,
    pub cos_a: i64,
    pub sin_b: i64,
    pub cos_b: i64,
    pub sin_g: i64,
    pub cos_g: i64,
}

impl Vertex {
    /// Coordinates small enough for the rotator: every intermediate product
    /// then fits in `i64` and every rotated coordinate stays in `MAX_COORD`.
    pub open spec fn in_bounds(self) -> bool {
        &&& -VERTEX_BOUND <= self.x <= VERTEX_BOUND
        &&& -VERTEX_BOUND <= self.y <= VERTEX_BOUND
        &&& -VERTEX_BOUND <= self.z <= VERTEX_BOUND
    }

    pub fn new(x: i64, y: i64, z: i64) -> (v: Vertex)
        ensures
            v == (Vertex { x, y, z }),
    {
        Vertex { x, y, z }
    }
}

impl Rotation {
    /// Each entry lies in [-1.0, 1.0], as a sine or cosine must.
    pub open spec fn wf(self) -> bool {
        &&& -SCALE <= self.sin_a <= SCALE
        &&& -SCALE <= self.cos_a <= SCALE
        &&& -SCALE <= self.sin_b <= SCALE
        &&& -SCALE <= self.cos_b <= SCALE
        &&& -SCALE <= self.sin_g <= SCALE
        &&& -SCALE <= self.cos_g <= SCALE
    }

    pub fn new(sin_a: i64, cos_a: i64, sin_b: i64, cos_b: i64, sin_g: i64, cos_g: i64) -> (r:
        Rotation)
        requires
            -SCALE <= sin_a <= SCALE,
            -SCALE <= cos_a <= SCALE,
            -SCALE <= sin_b <= SCALE,
            -SCALE <= cos_b <= SCALE,
            -SCALE <= sin_g <= SCALE,
            -SCALE <= cos_g <= SCALE,
        ensures
            r == (Rotation { sin_a, cos_a, sin_b, cos_b, sin_g, cos_g }),
            r.wf(),
    {
        Rotation { sin_a, cos_a, sin_b, cos_b, sin_g, cos_g }
    }

    /// The rotation by zero angles about every axis: sin 0 = 0, cos 0 = 1.
    pub fn identity() -> (r: Rotation)
        ensures
            r == (Rotation {
                sin_a: 0i64,
                cos_a: SCALE,
                sin_b: 0i64,
                cos_b: SCALE,
                sin_g: 0i64,
                cos_g: SCALE,
            }),
            r.wf(),
    {
        Rotation { sin_a: 0, cos_a: SCALE, sin_b: 0, cos_b: SCALE, sin_g: 0, cos_g: SCALE }
    }
}

/// The exact value of the rotated x coordinate, in fixed-point integers.
pub open spec fn spec_rotate_x(v: Vertex, r: Rotation) -> int {
    let z0 = v.z - SCALE;
    let y1 = tdiv(v.y * r.cos_a - z0 * r.sin_a, SCALE as int);
    let z1 = tdiv(v.y * r.sin_a + z0 * r.cos_a, SCALE as int);
    let x2 = tdiv(v.x * r.cos_b + z1 * r.sin_b, SCALE as int);
    tdiv(x2 * r.cos_g - y1 * r.sin_g, SCALE as int)
}

/// The exact value of the rotated y coordinate.
pub open spec fn spec_rotate_y(v: Vertex, r: Rotation) -> int {
    let z0 = v.z - SCALE;
    let y1 = tdiv(v.y * r.cos_a - z0 * r.sin_a, SCALE as int);
    let z1 = tdiv(v.y * r.sin_a + z0 * r.cos_a, SCALE as int);
    let x2 = tdiv(v.x * r.cos_b + z1 * r.sin_b, SCALE as int);
    tdiv(x2 * r.sin_g + y1 * r.cos_g, SCALE as int)
}

/// The exact value of the rotated z coordinate (translated back by 1.0).
pub open spec fn spec_rotate_z(v: Vertex, r: Rotation) -> int {
    let z0 = v.z - SCALE;
    let z1 = tdiv(v.y * r.sin_a + z0 * r.cos_a, SCALE as int);
    tdiv(-v.x * r.sin_b + z1 * r.cos_b, SCALE as int) + SCALE
}

/// The vertex produced by rotating `v` by `r`.
pub open spec fn spec_rotated(v: Vertex, r: Rotation) -> Vertex {
    Vertex {
        x: spec_rotate_x(v, r) as i64,
        y: spec_rotate_y(v, r) as i64,
        z: spec_rotate_z(v, r) as i64,
    }
}

/// Rotates a vertex in place and also returns the rotated value: first the
/// pivot shift of -1.0 in depth, then the X rotation, then the Y rotation on
/// the X-rotated depth, then the Z rotation on the Y-rotated x and the
/// X-stage y, then the pivot shift back.
pub fn rotate_cube(v: &mut Vertex, r: &Rotation) -> (out: Vertex)
    requires
        old(v).in_bounds(),
        r.wf(),
    ensures
        final(v).x == spec_rotate_x(*old(v), *r),
        final(v).y == spec_rotate_y(*old(v), *r),
        final(v).z == spec_rotate_z(*old(v), *r),
        out == *final(v),
        -MAX_COORD <= final(v).x <= MAX_COORD,
        -MAX_COORD <= final(v).y <= MAX_COORD,
        -MAX_COORD <= final(v).z <= MAX_COORD,
{
    let x: i64 = v.x;
    let y: i64 = v.y;
    let z: i64 = v.z - SCALE;

    proof {
        lemma_mul_fits(y as int, r.cos_a as int, VERTEX_BOUND as int, SCALE as int);
        lemma_mul_fits(z as int, r.sin_a as int, (VERTEX_BOUND + SCALE) as int, SCALE as int);
        lemma_mul_fits(y as int, r.sin_a as int, VERTEX_BOUND as int, SCALE as int);
        lemma_mul_fits(z as int, r.cos_a as int, (VERTEX_BOUND + SCALE) as int, SCALE as int);
    }
    let sum_y1: i64 = y * r.cos_a - z * r.sin_a;
    let sum_z1: i64 = y * r.sin_a + z * r.cos_a;
    proof {
        lemma_tdiv_bound(sum_y1 as int, SCALE as int, (2 * VERTEX_BOUND + SCALE) as int);
        lemma_tdiv_bound(sum_z1 as int, SCALE as int, (2 * VERTEX_BOUND + SCALE) as int);
    }
    let y1: i64 = sum_y1 / SCALE;
    let z1: i64 = sum_z1 / SCALE;

    proof {
        lemma_mul_fits(x as int, r.cos_b as int, VERTEX_BOUND as int, SCALE as int);
        lemma_mul_fits(z1 as int, r.sin_b as int, (2 * VERTEX_BOUND + SCALE) as int, SCALE as int);
        lemma_mul_fits(z1 as int, r.cos_b as int, (2 * VERTEX_BOUND + SCALE) as int, SCALE as int);
        lemma_mul_fits(-(x as int), r.sin_b as int, VERTEX_BOUND as int, SCALE as int);
    }
    let sum_x2: i64 = x * r.cos_b + z1 * r.sin_b;
    let sum_z2: i64 = -x * r.sin_b + z1 * r.cos_b;
    proof {
        lemma_tdiv_bound(sum_x2 as int, SCALE as int, (3 * VERTEX_BOUND + SCALE) as int);
        lemma_tdiv_bound(sum_z2 as int, SCALE as int, (3 * VERTEX_BOUND + SCALE) as int);
    }
    let x2: i64 = sum_x2 / SCALE;
    let z2: i64 = sum_z2 / SCALE;

    proof {
        lemma_mul_fits(x2 as int, r.cos_g as int, (3 * VERTEX_BOUND + SCALE) as int, SCALE as int);
        lemma_mul_fits(y1 as int, r.sin_g as int, (2 * VERTEX_BOUND + SCALE) as int, SCALE as int);
        lemma_mul_fits(x2 as int, r.sin_g as int, (3 * VERTEX_BOUND + SCALE) as int, SCALE as int);
        lemma_mul_fits(y1 as int, r.cos_g as int, (2 * VERTEX_BOUND + SCALE) as int, SCALE as int);
    }
    let sum_x3: i64 = x2 * r.cos_g - y1 * r.sin_g;
    let sum_y3: i64 = x2 * r.sin_g + y1 * r.cos_g;
    proof {
        lemma_tdiv_bound(sum_x3 as int, SCALE as int, (5 * VERTEX_BOUND + 2 * SCALE) as int);
        lemma_tdiv_bound(sum_y3 as int, SCALE as int, (5 * VERTEX_BOUND + 2 * SCALE) as int);
    }
    let x3: i64 = sum_x3 / SCALE;
    let y3: i64 = sum_y3 / SCALE;

    v.x = x3;
    v.y = y3;
    v.z = z2 + SCALE;
    *v
}

/// Rotating by zero angles leaves a vertex exactly unchanged: the pivot shift
/// and its inverse cancel, and every stage multiplies by cos 0 = 1.
pub proof fn lemma_zero_rotation(v: Vertex)
    ensures
        spec_rotate_x(
            v,
            Rotation {
                sin_a: 0i64,
                cos_a: SCALE,
                sin_b: 0i64,
                cos_b: SCALE,
                sin_g: 0i64,
                cos_g: SCALE,
            },
        ) == v.x,
        spec_rotate_y(
            v,
            Rotation {
                sin_a: 0i64,
                cos_a: SCALE,
                sin_b: 0i64,
                cos_b: SCALE,
                sin_g: 0i64,
                cos_g: SCALE,
            },
        ) == v.y,
        spec_rotate_z(
            v,
            Rotation {
                sin_a: 0i64,
                cos_a: SCALE,
                sin_b: 0i64,
                cos_b: SCALE,
                sin_g: 0i64,
                cos_g: SCALE,
            },
        ) == v.z,
{
    let s = SCALE as int;
    lemma_tdiv_exact(v.y as int, s);
    lemma_tdiv_exact(v.z - s, s);
    lemma_tdiv_exact(v.x as int, s);
}

/// The exact quarter turn about the X axis: sin(pi/2) = 1.0 and
/// cos(pi/2) = 0 are exactly representable in fixed point.
pub open spec fn quarter_turn_x() -> Rotation {
    Rotation { sin_a: SCALE, cos_a: 0i64, sin_b: 0i64, cos_b: SCALE, sin_g: 0i64, cos_g: SCALE }
}

/// The exact quarter turn about the Y axis.
pub open spec fn quarter_turn_y() -> Rotation {
    Rotation { sin_a: 0i64, cos_a: SCALE, sin_b: SCALE, cos_b: 0i64, sin_g: 0i64, cos_g: SCALE }
}

/// The exact quarter turn about the Z axis.
pub open spec fn quarter_turn_z() -> Rotation {
    Rotation { sin_a: 0i64, cos_a: SCALE, sin_b: 0i64, cos_b: SCALE, sin_g: SCALE, cos_g: 0i64 }
}

/// One quarter turn about X sends (x, y, z) to (x, 1 - z, y + 1): a turn
/// about the pivot at depth 1.0, with no rounding at all.
proof fn lemma_quarter_x_step(v: Vertex)
    requires
        -MAX_COORD <= v.x <= MAX_COORD,
        -MAX_COORD <= v.y <= MAX_COORD,
        -MAX_COORD <= v.z <= MAX_COORD,
    ensures
        spec_rotated(v, quarter_turn_x()) == (Vertex {
            x: v.x,
            y: (SCALE - v.z) as i64,
            z: (v.y + SCALE) as i64,
        }),
{
    let s = SCALE as int;
    lemma_tdiv_exact(-(v.z - s), s);
    lemma_tdiv_exact(v.y as int, s);
    lemma_tdiv_exact(v.x as int, s);
}

/// One quarter turn about Y sends (x, y, z) to (z - 1, y, 1 - x), exactly.
proof fn lemma_quarter_y_step(v: Vertex)
    requires
        -MAX_COORD <= v.x <= MAX_COORD,
        -MAX_COORD <= v.y <= MAX_COORD,
        -MAX_COORD <= v.z <= MAX_COORD,
    ensures
        spec_rotated(v, quarter_turn_y()) == (Vertex {
            x: (v.z - SCALE) as i64,
            y: v.y,
            z: (SCALE - v.x) as i64,
        }),
{
    let s = SCALE as int;
    lemma_tdiv_exact(v.y as int, s);
    lemma_tdiv_exact(v.z - s, s);
    lemma_tdiv_exact(-(v.x as int), s);
}

/// One quarter turn about Z sends (x, y, z) to (-y, x, z), exactly.
proof fn lemma_quarter_z_step(v: Vertex)
    requires
        -MAX_COORD <= v.x <= MAX_COORD,
        -MAX_COORD <= v.y <= MAX_COORD,
        -MAX_COORD <= v.z <= MAX_COORD,
    ensures
        spec_rotated(v, quarter_turn_z()) == (Vertex {
            x: (-v.y) as i64,
            y: v.x,
            z: v.z,
        }),
{
    let s = SCALE as int;
    lemma_tdiv_exact(v.y as int, s);
    lemma_tdiv_exact(v.z - s, s);
    lemma_tdiv_exact(v.x as int, s);
    lemma_tdiv_exact(-(v.y as int), s);
}

/// Rotation periodicity, exact at the quarter turn: a quarter turn's sine
/// and cosine are the only nonzero angle's trigonometric values that fixed
/// point represents without error, and applying the rotator 2 pi / angle =
/// 4 times about any single axis returns every in-bounds vertex unchanged.
pub proof fn lemma_quarter_turn_periodicity(v: Vertex)
    requires
        v.in_bounds(),
    ensures
        spec_rotated(
            spec_rotated(
                spec_rotated(spec_rotated(v, quarter_turn_x()), quarter_turn_x()),
                quarter_turn_x(),
            ),
            quarter_turn_x(),
        ) == v,
        spec_rotated(
            spec_rotated(
                spec_rotated(spec_rotated(v, quarter_turn_y()), quarter_turn_y()),
                quarter_turn_y(),
            ),
            quarter_turn_y(),
        ) == v,
        spec_rotated(
            spec_rotated(
                spec_rotated(spec_rotated(v, quarter_turn_z()), quarter_turn_z()),
                quarter_turn_z(),
            ),
            quarter_turn_z(),
        ) == v,
{
    let x1 = spec_rotated(v, quarter_turn_x());
    lemma_quarter_x_step(v);
    let x2 = spec_rotated(x1, quarter_turn_x());
    lemma_quarter_x_step(x1);
    let x3 = spec_rotated(x2, quarter_turn_x());
    lemma_quarter_x_step(x2);
    lemma_quarter_x_step(x3);

    let y1 = spec_rotated(v, quarter_turn_y());
    lemma_quarter_y_step(v);
    let y2 = spec_rotated(y1, quarter_turn_y());
    lemma_quarter_y_step(y1);
    let y3 = spec_rotated(y2, quarter_turn_y());
    lemma_quarter_y_step(y2);
    lemma_quarter_y_step(y3);

    let z1 = spec_rotated(v, quarter_turn_z());
    lemma_quarter_z_step(v);
    let z2 = spec_rotated(z1, quarter_turn_z());
    lemma_quarter_z_step(z1);
    let z3 = spec_rotated(z2, quarter_turn_z());
    lemma_quarter_z_step(z2);
    lemma_quarter_z_step(z3);
}

} // verus!
