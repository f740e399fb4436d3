//! The projector: perspective projection of a camera-space vertex to
//! normalized device coordinates, or a "behind the camera" failure when the
//! depth is not positive.
//!
//! With focal factor `f` (fixed-point value of 1 / tan(fov / 2)) and aspect
//! ratio `a`, the real-valued result is `(f/a · x/z, f · y/z)`; in
//! fixed-point units that is one truncated division each:
//! `x_ndc = (SCALE·f·x) / (a·z)` and `y_ndc = (f·y) / z`.
//!
//! The near and far planes only enter a depth-remapping term whose value the
//! returned two coordinates never use, so they are accepted and ignored.

use crate::fixed::{lemma_mul_fits, lemma_tdiv_abs, lemma_tdiv_bound, lemma_tdiv_ordered, tdiv,
    MAX_COORD, SCALE};
use crate::rotate::Vertex;
use vstd::math::abs;
use vstd::prelude::*;

verus! {

/// A projected vertex: normalized device coordinates in fixed-point units,
/// roughly in [-1.0, 1.0] for points inside the viewing frustum.
#[derive(Clone, Copy, PartialEq, Eq, Structural, Debug)]
pub struct ProjVertex {
    pub x: i64,
    pub y: i64,
}

/// The exact normalized device x coordinate of `v` under focal factor `f`
/// and aspect ratio `aspect` (both fixed-point).
pub open spec fn spec_ndc_x(v: Vertex, f: int, aspect: int) -> int {
    tdiv(SCALE * f * v.x, aspect * v.z)
}

/// The exact normalized device y coordinate of `v` under focal factor `f`.
pub open spec fn spec_ndc_y(v: Vertex, f: int) -> int {
    tdiv(f * v.y, v.z as int)
}

/// Arguments small enough for the projector: every product in the
/// perspective divide then fits in `i64`.
pub open spec fn projectable(v: Vertex, f: int, aspect: int) -> bool {
    &&& -MAX_COORD <= v.x <= MAX_COORD
    &&& -MAX_COORD <= v.y <= MAX_COORD
    &&& v.z <= MAX_COORD
    &&& 0 < aspect <= MAX_COORD
    &&& -MAX_COORD <= f <= MAX_COORD
}

/// Projects a camera-space vertex to normalized device coordinates, or
/// returns `None` exactly when the vertex sits at or behind the camera
/// (depth not positive). `near` and `far` do not affect the result.
pub fn project_point(v: &Vertex, f: i64, aspect: i64, near: i64, far: i64) -> (r: Option<
    ProjVertex,
>)
    requires
        projectable(*v, f as int, aspect as int),
    ensures
        r is Some <==> v.z > 0,
        v.z > 0 ==> r == Some(
            ProjVertex {
                x: spec_ndc_x(*v, f as int, aspect as int) as i64,
                y: spec_ndc_y(*v, f as int) as i64,
            },
        ),
        v.z > 0 ==> spec_ndc_x(*v, f as int, aspect as int) == r.unwrap().x
            && spec_ndc_y(*v, f as int) == r.unwrap().y,
{
    if v.z <= 0 {
        return None;
    }
    proof {
        lemma_mul_fits(SCALE as int, f as int, SCALE as int, MAX_COORD as int);
        lemma_mul_fits(
            (SCALE * f) as int,
            v.x as int,
            (SCALE * MAX_COORD) as int,
            MAX_COORD as int,
        );
        lemma_mul_fits(aspect as int, v.z as int, MAX_COORD as int, MAX_COORD as int);
        lemma_mul_fits(f as int, v.y as int, MAX_COORD as int, MAX_COORD as int);
        assert(aspect * v.z >= 1) by (nonlinear_arith)
            requires
                aspect >= 1 && v.z >= 1,
        ;
        lemma_tdiv_bound(
            (SCALE * f * v.x) as int,
            (aspect * v.z) as int,
            SCALE as int * MAX_COORD as int * MAX_COORD as int,
        );
        assert(SCALE as int * MAX_COORD as int * MAX_COORD as int * 1 <= SCALE as int
            * MAX_COORD as int * MAX_COORD as int * (aspect * v.z)) by (nonlinear_arith)
            requires
                aspect * v.z >= 1,
        ;
        lemma_tdiv_bound((f * v.y) as int, v.z as int, (MAX_COORD as int) * (MAX_COORD as int));
        assert(MAX_COORD as int * MAX_COORD as int * 1 <= MAX_COORD as int * MAX_COORD as int * (
        v.z as int)) by (nonlinear_arith)
            requires
                v.z >= 1,
        ;
    }
    let x_ndc: i64 = (SCALE * f) * v.x / (aspect * v.z);
    let y_ndc: i64 = f * v.y / v.z;
    Some(ProjVertex { x: x_ndc, y: y_ndc })
}

/// Raising the focal factor never shrinks the magnitude of either projected
/// coordinate: for a fixed vertex with positive depth and a fixed aspect
/// ratio, the projection scales monotonically with `f`.
pub proof fn lemma_projection_scaling(v: Vertex, f1: int, f2: int, aspect: int)
    requires
        v.z > 0,
        aspect > 0,
        0 <= f1 <= f2,
    ensures
        abs(spec_ndc_x(v, f1, aspect)) <= abs(spec_ndc_x(v, f2, aspect)),
        abs(spec_ndc_y(v, f1)) <= abs(spec_ndc_y(v, f2)),
{
    assert(aspect * v.z > 0) by (nonlinear_arith)
        requires
            aspect > 0 && v.z > 0,
    ;
    let den = aspect * v.z;
    lemma_tdiv_abs(SCALE * f1 * v.x, den);
    lemma_tdiv_abs(SCALE * f2 * v.x, den);
    assert(0 <= abs(SCALE * f1 * v.x) <= abs(SCALE * f2 * v.x)) by (nonlinear_arith)
        requires
            0 <= f1 <= f2,
    ;
    lemma_tdiv_ordered(abs(SCALE * f1 * v.x) as int, abs(SCALE * f2 * v.x) as int, den);
    lemma_tdiv_abs(f1 * v.y, v.z as int);
    lemma_tdiv_abs(f2 * v.y, v.z as int);
    assert(0 <= abs(f1 * v.y) <= abs(f2 * v.y)) by (nonlinear_arith)
        requires
            0 <= f1 <= f2,
    ;
    lemma_tdiv_ordered(abs(f1 * v.y) as int, abs(f2 * v.y) as int, v.z as int);
}

} // verus!
