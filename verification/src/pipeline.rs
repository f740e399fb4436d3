//! The per-frame pipeline: rotate all eight cube vertices in place, project
//! each to normalized device coordinates, and assemble the twelve wireframe
//! segments — or fail the frame if any vertex has no representable
//! projection. The caller drives the frame loop, queries the window size,
//! and draws the returned segments.

use crate::fixed::{HALF, MAX_COORD, MAX_DIM, NDC_LIMIT, SCALE};
use crate::project::{project_point, spec_ndc_x, spec_ndc_y, ProjVertex};
use crate::rotate::{rotate_cube, spec_rotated, Rotation, Vertex};
use crate::wireframe::{cube_segments, seg_matches, Segment};
use vstd::prelude::*;

verus! {

/// The single error of the pipeline: a vertex sat at or behind the camera
/// (or projected beyond the representable coordinate range), so the frame
/// cannot be rendered.
#[derive(Clone, Copy, PartialEq, Eq, Structural, Debug)]
pub struct ProjectionFailure;

/// The projected vertex produced from camera-space vertex `v`.
pub open spec fn spec_projected(v: Vertex, f: int, aspect: int) -> ProjVertex {
    ProjVertex { x: spec_ndc_x(v, f, aspect) as i64, y: spec_ndc_y(v, f) as i64 }
}

/// A camera-space vertex has a representable projection: it lies strictly
/// in front of the camera, and its device coordinates fit the mapper's
/// range (the latter can only fail for geometry far outside any frustum,
/// a machine limit of the fixed-point representation).
pub open spec fn spec_representable(v: Vertex, f: int, aspect: int) -> bool {
    &&& v.z > 0
    &&& -NDC_LIMIT <= spec_ndc_x(v, f, aspect) <= NDC_LIMIT
    &&& -NDC_LIMIT <= spec_ndc_y(v, f) <= NDC_LIMIT
}

/// The unit cube the animation starts from: front face at depth 0.5, back
/// face at depth 1.5, so the cube sits one unit behind the rotation pivot's
/// depth offset. Index order fixes the topology: 0-3 front, 4-7 back.
pub fn unit_cube() -> (c: Vec<Vertex>)
    ensures
        c@.len() == 8,
        c@[0] == (Vertex { x: (-HALF) as i64, y: (-HALF) as i64, z: HALF }),
        c@[1] == (Vertex { x: (-HALF) as i64, y: HALF, z: HALF }),
        c@[2] == (Vertex { x: HALF, y: (-HALF) as i64, z: HALF }),
        c@[3] == (Vertex { x: HALF, y: HALF, z: HALF }),
        c@[4] == (Vertex { x: (-HALF) as i64, y: (-HALF) as i64, z: (SCALE + HALF) as i64 }),
        c@[5] == (Vertex { x: (-HALF) as i64, y: HALF, z: (SCALE + HALF) as i64 }),
        c@[6] == (Vertex { x: HALF, y: (-HALF) as i64, z: (SCALE + HALF) as i64 }),
        c@[7] == (Vertex { x: HALF, y: HALF, z: (SCALE + HALF) as i64 }),
        forall|i: int| 0 <= i < 8 ==> (#[trigger] c@[i]).in_bounds(),
{
    let mut c: Vec<Vertex> = Vec::new();
    c.push(Vertex { x: -HALF, y: -HALF, z: HALF });
    c.push(Vertex { x: -HALF, y: HALF, z: HALF });
    c.push(Vertex { x: HALF, y: -HALF, z: HALF });
    c.push(Vertex { x: HALF, y: HALF, z: HALF });
    c.push(Vertex { x: -HALF, y: -HALF, z: SCALE + HALF });
    c.push(Vertex { x: -HALF, y: HALF, z: SCALE + HALF });
    c.push(Vertex { x: HALF, y: -HALF, z: SCALE + HALF });
    c.push(Vertex { x: HALF, y: HALF, z: SCALE + HALF });
    c
}

/// Runs one frame of the pipeline on the eight cube vertices: rotates every
/// vertex in place by `r`, projects each rotated vertex with focal factor
/// `f` and aspect ratio `aspect` (`near` and `far` are accepted and have no
/// effect on the result), and maps the projections to pixel segments for a
/// `width` by `height` window. Fails — leaving the cube rotated — exactly
/// when some rotated vertex has no representable projection.
pub fn render_frame(
    cube: &mut Vec<Vertex>,
    r: &Rotation,
    f: i64,
    aspect: i64,
    near: i64,
    far: i64,
    width: i64,
    height: i64,
) -> (res: Result<Vec<Segment>, ProjectionFailure>)
    requires
        old(cube)@.len() == 8,
        forall|i: int| 0 <= i < 8 ==> (#[trigger] old(cube)@[i]).in_bounds(),
        r.wf(),
        -MAX_COORD <= f <= MAX_COORD,
        0 < aspect <= MAX_COORD,
        0 <= width <= MAX_DIM,
        0 <= height <= MAX_DIM,
    ensures
        final(cube)@.len() == 8,
        forall|i: int|
            0 <= i < 8 ==> #[trigger] final(cube)@[i] == spec_rotated(old(cube)@[i], *r),
        res is Ok <==> (forall|i: int|
            0 <= i < 8 ==> spec_representable(
                spec_rotated(#[trigger] old(cube)@[i], *r),
                f as int,
                aspect as int,
            )),
        res is Ok ==> res.unwrap()@.len() == 12,
        res is Ok ==> (forall|i: int|
            0 <= i < 12 ==> seg_matches(
                #[trigger] res.unwrap()@[i],
                Seq::new(
                    8,
                    |j: int| spec_projected(spec_rotated(old(cube)@[j], *r), f as int, aspect as int),
                ),
                width as int,
                height as int,
                i,
            )),
{
    let ghost cube0 = cube@;
    let mut idx: usize = 0;
    while idx < 8
        invariant
            cube0 == old(cube)@,
            cube@.len() == 8,
            cube0.len() == 8,
            0 <= idx <= 8,
            r.wf(),
            forall|j: int| idx <= j < 8 ==> #[trigger] cube@[j] == cube0[j],
            forall|j: int| 0 <= j < 8 ==> (#[trigger] cube0[j]).in_bounds(),
            forall|j: int| 0 <= j < idx ==> #[trigger] cube@[j] == spec_rotated(cube0[j], *r),
            forall|j: int|
                0 <= j < idx ==> -MAX_COORD <= (#[trigger] cube@[j]).x <= MAX_COORD && -MAX_COORD
                    <= cube@[j].y <= MAX_COORD && cube@[j].z <= MAX_COORD,
        decreases 8 - idx,
    {
        let mut v = cube[idx];
        rotate_cube(&mut v, r);
        cube.set(idx, v);
        idx += 1;
    }

    let mut proj: Vec<ProjVertex> = Vec::new();
    let mut idx: usize = 0;
    while idx < 8
        invariant
            cube0 == old(cube)@,
            cube@.len() == 8,
            cube0.len() == 8,
            0 <= idx <= 8,
            proj@.len() == idx,
            -MAX_COORD <= f <= MAX_COORD,
            0 < aspect <= MAX_COORD,
            forall|j: int| 0 <= j < 8 ==> #[trigger] cube@[j] == spec_rotated(cube0[j], *r),
            forall|j: int|
                0 <= j < 8 ==> -MAX_COORD <= (#[trigger] cube@[j]).x <= MAX_COORD && -MAX_COORD
                    <= cube@[j].y <= MAX_COORD && cube@[j].z <= MAX_COORD,
            forall|j: int|
                0 <= j < idx ==> spec_representable(#[trigger] cube@[j], f as int, aspect as int),
            forall|j: int|
                0 <= j < idx ==> #[trigger] proj@[j] == spec_projected(
                    cube@[j],
                    f as int,
                    aspect as int,
                ),
            forall|j: int|
                0 <= j < idx ==> -NDC_LIMIT <= (#[trigger] proj@[j]).x <= NDC_LIMIT && -NDC_LIMIT
                    <= proj@[j].y <= NDC_LIMIT,
        decreases 8 - idx,
    {
        let v = cube[idx];
        match project_point(&v, f, aspect, near, far) {
            None => {
                proof {
                    assert(cube0 == old(cube)@);
                    assert(!spec_representable(
                        spec_rotated(old(cube)@[idx as int], *r),
                        f as int,
                        aspect as int,
                    ));
                }
                return Err(ProjectionFailure);
            },
            Some(p) => {
                if p.x < -NDC_LIMIT || p.x > NDC_LIMIT || p.y < -NDC_LIMIT || p.y > NDC_LIMIT {
                    proof {
                        assert(cube0 == old(cube)@);
                        assert(!spec_representable(
                            spec_rotated(old(cube)@[idx as int], *r),
                            f as int,
                            aspect as int,
                        ));
                    }
                    return Err(ProjectionFailure);
                }
                proj.push(p);
            },
        }
        idx += 1;
    }

    let segs = cube_segments(&proj, width, height);
    proof {
        assert(cube0 == old(cube)@);
        assert forall|i: int| 0 <= i < 8 implies spec_representable(
            spec_rotated(old(cube)@[i], *r),
            f as int,
            aspect as int,
        ) by {
            assert(cube@[i] == spec_rotated(cube0[i], *r));
            assert(spec_representable(cube@[i], f as int, aspect as int));
        }
        let model = Seq::new(
            8,
            |j: int| spec_projected(spec_rotated(cube0[j], *r), f as int, aspect as int),
        );
        assert(proj@ =~= model);
    }
    Ok(segs)
}

} // verus!
