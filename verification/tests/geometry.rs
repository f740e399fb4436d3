use spinning_cube::fixed::{HALF, SCALE};
use spinning_cube::mapper::{get_x, get_y};
use spinning_cube::pipeline::{render_frame, unit_cube, ProjectionFailure};
use spinning_cube::project::{project_point, ProjVertex};
use spinning_cube::rotate::{rotate_cube, Rotation, Vertex};
use spinning_cube::wireframe::cube_segments;

/// Fixed-point value of a real number, rounded to the nearest unit.
fn fp(v: f64) -> i64 {
    (v * SCALE as f64).round() as i64
}

/// The six fixed-point trigonometric values for angles (alpha, beta, gamma).
fn trig(alpha: f64, beta: f64, gamma: f64) -> Rotation {
    Rotation::new(
        fp(alpha.sin()),
        fp(alpha.cos()),
        fp(beta.sin()),
        fp(beta.cos()),
        fp(gamma.sin()),
        fp(gamma.cos()),
    )
}

/// The focal factor 1 / tan(fov/2) for a field of view in degrees.
fn focal(fov_deg: f64) -> i64 {
    fp(1.0 / (fov_deg.to_radians() / 2.0).tan())
}

#[test]
fn mapper_center_of_square_window() {
    // In an 800 x 800 window, device x = 0 is the middle column (400 px),
    // x = -1 the left edge, x = +1 the right edge.
    assert_eq!(get_x(0, 800, 800), 400 * SCALE);
    assert_eq!(get_x(-SCALE, 800, 800), 0);
    assert_eq!(get_x(SCALE, 800, 800), 800 * SCALE);
    // The vertical axis is inverted: y = +1 is the top edge.
    assert_eq!(get_y(0, 800, 800), 400 * SCALE);
    assert_eq!(get_y(SCALE, 800, 800), 0);
    assert_eq!(get_y(-SCALE, 800, 800), 800 * SCALE);
}

#[test]
fn mapper_letterbox_offsets() {
    // 1000 x 600 window: the square viewport is 600 px wide, offset
    // horizontally by exactly (1000 - 600) / 2 = 200 px on each side.
    assert_eq!(get_x(-SCALE, 1000, 600), 200 * SCALE);
    assert_eq!(get_x(SCALE, 1000, 600), 800 * SCALE);
    assert_eq!(get_y(SCALE, 1000, 600), 0);
    assert_eq!(get_y(-SCALE, 1000, 600), 600 * SCALE);
    // 600 x 1000 window: the offset moves to the vertical dimension.
    assert_eq!(get_y(SCALE, 600, 1000), 200 * SCALE);
    assert_eq!(get_y(-SCALE, 600, 1000), 800 * SCALE);
    assert_eq!(get_x(-SCALE, 600, 1000), 0);
    assert_eq!(get_x(SCALE, 600, 1000), 600 * SCALE);
    // An odd difference is still split exactly in half, thanks to the
    // fixed-point pixel coordinates.
    assert_eq!(get_x(-SCALE, 801, 600), 201 * SCALE / 2);
}

#[test]
fn rotation_zero_angles_is_identity() {
    // Rotating by zero angles returns the vertex unchanged for any input:
    // the depth shift and its inverse cancel exactly.
    let cases = [(12345, -6789, 424242), (0, 0, 0), (-1048576, 1048576, -1048576)];
    for (x, y, z) in cases {
        let mut v = Vertex::new(x, y, z);
        let out = rotate_cube(&mut v, &Rotation::identity());
        assert_eq!(v, Vertex::new(x, y, z));
        assert_eq!(out, v);
    }
}

#[test]
fn rotation_exact_value_for_demo_angles() {
    // One step with the demo angles (0.01, 0.02, 0.015) on two cube
    // corners, checked against the exact fixed-point arithmetic.
    let r = trig(0.01, 0.02, 0.015);
    let mut v = Vertex::new(HALF, HALF, SCALE + HALF);
    rotate_cube(&mut v, &r);
    assert_eq!(v, Vertex::new(32932, 32936, 97967));
    let mut w = Vertex::new(-HALF, -HALF, HALF);
    rotate_cube(&mut w, &r);
    assert_eq!(w, Vertex::new(-32932, -32936, 33105));
}

#[test]
fn rotation_mutates_in_place_and_returns() {
    let r = trig(0.01, 0.02, 0.015);
    let mut v = Vertex::new(HALF, HALF, SCALE + HALF);
    let out = rotate_cube(&mut v, &r);
    assert_eq!(out, v);
}

#[test]
fn rotation_periodicity_per_axis() {
    // Applying the rotator round(2 pi / angle) times about a single axis
    // returns approximately the original vertex. The tolerance covers the
    // accumulated fixed-point rounding (measured well under 500 units,
    // i.e. under 0.008 in real terms).
    let start = Vertex::new(fp(0.5), fp(0.5), fp(1.5));
    let cases = [
        (trig(0.01, 0.0, 0.0), 628),
        (trig(0.0, 0.02, 0.0), 314),
        (trig(0.0, 0.0, 0.015), 419),
    ];
    for (r, steps) in cases {
        let mut v = start;
        for _ in 0..steps {
            rotate_cube(&mut v, &r);
        }
        assert!((v.x - start.x).abs() <= 1000, "x drifted: {}", v.x - start.x);
        assert!((v.y - start.y).abs() <= 1000, "y drifted: {}", v.y - start.y);
        assert!((v.z - start.z).abs() <= 1000, "z drifted: {}", v.z - start.z);
    }
}

#[test]
fn rotation_quarter_turns_are_exactly_periodic() {
    // A quarter turn has exact fixed-point trigonometric values (sin = 1,
    // cos = 0), so four applications about one axis restore the vertex
    // with no error at all.
    let quarter_x = Rotation::new(SCALE, 0, 0, SCALE, 0, SCALE);
    let quarter_y = Rotation::new(0, SCALE, SCALE, 0, 0, SCALE);
    let quarter_z = Rotation::new(0, SCALE, 0, SCALE, SCALE, 0);
    let start = Vertex::new(fp(0.5), fp(-0.5), fp(1.5));
    for r in [quarter_x, quarter_y, quarter_z] {
        let mut v = start;
        for _ in 0..4 {
            rotate_cube(&mut v, &r);
        }
        assert_eq!(v, start);
    }
}

#[test]
fn projection_failure_boundary() {
    // z = 0 and z = -0.001 are at or behind the camera: failure. z = 0.001
    // is in front: a defined coordinate pair.
    let f = focal(120.0);
    let (aspect, near, far) = (SCALE, fp(0.1), fp(100.0));
    let at_camera = Vertex::new(1000, 2000, 0);
    assert_eq!(project_point(&at_camera, f, aspect, near, far), None);
    let behind = Vertex::new(1000, 2000, fp(-0.001));
    assert_eq!(project_point(&behind, f, aspect, near, far), None);
    let in_front = Vertex::new(1000, 2000, fp(0.001));
    assert_eq!(
        project_point(&in_front, f, aspect, near, far),
        Some(ProjVertex { x: 573287, y: 1146575 })
    );
}

#[test]
fn projection_exact_values() {
    // With f = 1.0 and aspect = 1.0, a point at (0.5, 0.5, 1.0) projects to
    // exactly (0.5, 0.5).
    let v = Vertex::new(HALF, HALF, SCALE);
    assert_eq!(
        project_point(&v, SCALE, SCALE, fp(0.1), fp(100.0)),
        Some(ProjVertex { x: HALF, y: HALF })
    );
    // With the 120-degree field of view, f is about 0.57735 and the same
    // point lands at f/2 in both coordinates.
    assert_eq!(
        project_point(&v, focal(120.0), SCALE, fp(0.1), fp(100.0)),
        Some(ProjVertex { x: 18918, y: 18918 })
    );
}

#[test]
fn projection_near_far_have_no_effect() {
    let v = Vertex::new(HALF, -HALF, 3 * SCALE);
    let a = project_point(&v, focal(120.0), SCALE, fp(0.1), fp(100.0));
    let b = project_point(&v, focal(120.0), SCALE, fp(5.0), fp(7.0));
    assert_eq!(a, b);
}

#[test]
fn projection_scaling_with_focal_factor() {
    // For a fixed vertex in front of the camera and aspect 1, raising f
    // raises the magnitude of both device coordinates.
    let v = Vertex::new(fp(0.5), fp(-0.25), fp(2.0));
    let (aspect, near, far) = (SCALE, fp(0.1), fp(100.0));
    let low = project_point(&v, 20000, aspect, near, far).unwrap();
    let high = project_point(&v, 40000, aspect, near, far).unwrap();
    assert_eq!((low.x, low.y), (5000, -2500));
    assert_eq!((high.x, high.y), (10000, -5000));
    assert!(high.x.abs() > low.x.abs());
    assert!(high.y.abs() > low.y.abs());
    // Doubling the field of view instead lowers f = 1/tan(fov/2), and with
    // it the projected magnitudes.
    assert!(focal(120.0) < focal(60.0));
}

#[test]
fn unit_cube_matches_initial_layout() {
    let c = unit_cube();
    assert_eq!(c.len(), 8);
    let expected = [
        (-HALF, -HALF, HALF),
        (-HALF, HALF, HALF),
        (HALF, -HALF, HALF),
        (HALF, HALF, HALF),
        (-HALF, -HALF, SCALE + HALF),
        (-HALF, HALF, SCALE + HALF),
        (HALF, -HALF, SCALE + HALF),
        (HALF, HALF, SCALE + HALF),
    ];
    for (v, (x, y, z)) in c.iter().zip(expected) {
        assert_eq!(*v, Vertex::new(x, y, z));
    }
}

#[test]
fn wireframe_segments_follow_edge_topology() {
    // Eight distinct projected vertices; the twelve segments must join the
    // mapped endpoints of the fixed edge pairs in order.
    let edges = [
        (0, 1), (0, 2), (3, 1), (3, 2),
        (4, 5), (4, 6), (7, 5), (7, 6),
        (0, 4), (1, 5), (2, 6), (3, 7),
    ];
    let proj: Vec<ProjVertex> = (0..8i64)
        .map(|i| ProjVertex { x: i * 1000 - 3500, y: 3500 - i * 1000 })
        .collect();
    let (w, h) = (1000, 600);
    let segs = cube_segments(&proj, w, h);
    assert_eq!(segs.len(), 12);
    for (s, (a, b)) in segs.iter().zip(edges) {
        assert_eq!(s.x1, get_x(proj[a].x, w, h));
        assert_eq!(s.y1, get_y(proj[a].y, w, h));
        assert_eq!(s.x2, get_x(proj[b].x, w, h));
        assert_eq!(s.y2, get_y(proj[b].y, w, h));
    }
}

#[test]
fn render_frame_end_to_end() {
    // One frame on the freshly initialized cube with the demo parameters:
    // angles (0.01, 0.02, 0.015), fov 120 degrees, aspect 1, near 0.1,
    // far 100. Every vertex projects, and the twelve segments join the
    // mapped projections of the rotated cube.
    let mut cube = unit_cube();
    let reference = cube.clone();
    let r = trig(0.01, 0.02, 0.015);
    let (f, aspect, near, far) = (focal(120.0), SCALE, fp(0.1), fp(100.0));
    let (w, h) = (800, 600);

    let segs = render_frame(&mut cube, &r, f, aspect, near, far, w, h).unwrap();
    assert_eq!(segs.len(), 12);

    // Recompute the frame step by step through the public pieces.
    let mut proj = Vec::new();
    for v0 in &reference {
        let mut v = *v0;
        rotate_cube(&mut v, &r);
        let p = project_point(&v, f, aspect, near, far);
        assert!(p.is_some());
        proj.push(p.unwrap());
    }
    let edges = [
        (0, 1), (0, 2), (3, 1), (3, 2),
        (4, 5), (4, 6), (7, 5), (7, 6),
        (0, 4), (1, 5), (2, 6), (3, 7),
    ];
    for (s, (a, b)) in segs.iter().zip(edges) {
        assert_eq!(s.x1, get_x(proj[a].x, w, h));
        assert_eq!(s.y1, get_y(proj[a].y, w, h));
        assert_eq!(s.x2, get_x(proj[b].x, w, h));
        assert_eq!(s.y2, get_y(proj[b].y, w, h));
    }

    // The cube was rotated in place: the front top corner moved.
    assert_eq!(cube[7], Vertex::new(32932, 32936, 97967));
    assert_ne!(cube[0], reference[0]);
}

#[test]
fn render_frame_fails_behind_camera() {
    // A vertex at depth 0 cannot be projected; the frame reports the
    // single error kind and still leaves the cube rotated.
    let mut cube = unit_cube();
    cube[3] = Vertex::new(HALF, HALF, 0);
    let res = render_frame(
        &mut cube,
        &Rotation::identity(),
        focal(120.0),
        SCALE,
        fp(0.1),
        fp(100.0),
        800,
        600,
    );
    assert_eq!(res, Err(ProjectionFailure));
    assert_eq!(cube[3], Vertex::new(HALF, HALF, 0));
}
