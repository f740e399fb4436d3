//! The wireframe drawer's geometric half: the fixed edge topology of the
//! cube, and the assembly of the twelve drawable line segments from the
//! eight projected vertices, each endpoint mapped to pixel coordinates.
//! Issuing the actual line-draw calls is the canvas driver's business and
//! happens outside this crate.

use crate::fixed::{MAX_DIM, NDC_LIMIT};
use crate::mapper::{get_x, get_y, spec_pixel_x, spec_pixel_y};
use crate::project::ProjVertex;
use vstd::prelude::*;

verus! {

/// A line segment between two fixed-point pixel coordinates.
#[derive(Clone, Copy, PartialEq, Eq, Structural, Debug)]
pub struct Segment {
    pub x1: i64,
    pub y1: i64,
    pub x2: i64,
    pub y2: i64,
}

/// The pair of vertex indices joined by edge `i` of the cube: four front
/// face edges, four back face edges, four side edges, in the drawer's fixed
/// order.
pub open spec fn spec_edge(i: int) -> (int, int) {
    if i == 0 {
        (0, 1)
    } else if i == 1 {
        (0, 2)
    } else if i == 2 {
        (3, 1)
    } else if i == 3 {
        (3, 2)
    } else if i == 4 {
        (4, 5)
    } else if i == 5 {
        (4, 6)
    } else if i == 6 {
        (7, 5)
    } else if i == 7 {
        (7, 6)
    } else if i == 8 {
        (0, 4)
    } else if i == 9 {
        (1, 5)
    } else if i == 10 {
        (2, 6)
    } else {
        (3, 7)
    }
}

/// Segment `s` joins the mapped endpoints of edge `i` for the projected
/// vertices `c` in a window of `width` by `height` pixels.
pub open spec fn seg_matches(
    s: Segment,
    c: Seq<ProjVertex>,
    width: int,
    height: int,
    i: int,
) -> bool {
    let a = spec_edge(i).0;
    let b = spec_edge(i).1;
    &&& s.x1 == spec_pixel_x(c[a].x as int, width, height)
    &&& s.y1 == spec_pixel_y(c[a].y as int, width, height)
    &&& s.x2 == spec_pixel_x(c[b].x as int, width, height)
    &&& s.y2 == spec_pixel_y(c[b].y as int, width, height)
}

/// Every coordinate of every projected vertex lies within what the mapper
/// accepts.
pub open spec fn all_mappable(c: Seq<ProjVertex>) -> bool {
    forall|i: int|
        0 <= i < c.len() ==> -NDC_LIMIT <= #[trigger] c[i].x <= NDC_LIMIT && -NDC_LIMIT <= c[i].y
            <= NDC_LIMIT
}

/// Maps both endpoints of one edge through the coordinate mapper.
fn edge_segment(c: &Vec<ProjVertex>, a: usize, b: usize, width: i64, height: i64) -> (s: Segment)
    requires
        c@.len() == 8,
        a < 8,
        b < 8,
        all_mappable(c@),
        0 <= width <= MAX_DIM,
        0 <= height <= MAX_DIM,
    ensures
        s.x1 == spec_pixel_x(c@[a as int].x as int, width as int, height as int),
        s.y1 == spec_pixel_y(c@[a as int].y as int, width as int, height as int),
        s.x2 == spec_pixel_x(c@[b as int].x as int, width as int, height as int),
        s.y2 == spec_pixel_y(c@[b as int].y as int, width as int, height as int),
{
    Segment {
        x1: get_x(c[a].x, width, height),
        y1: get_y(c[a].y, width, height),
        x2: get_x(c[b].x, width, height),
        y2: get_y(c[b].y, width, height),
    }
}

/// Builds the twelve line segments of the cube's wireframe from its eight
/// projected vertices, in the fixed edge order, each endpoint mapped to
/// fixed-point pixel coordinates for the given window size.
pub fn cube_segments(c: &Vec<ProjVertex>, width: i64, height: i64) -> (r: Vec<Segment>)
    requires
        c@.len() == 8,
        all_mappable(c@),
        0 <= width <= MAX_DIM,
        0 <= height <= MAX_DIM,
    ensures
        r@.len() == 12,
        forall|i: int|
            0 <= i < 12 ==> seg_matches(#[trigger] r@[i], c@, width as int, height as int, i),
{
    let mut r: Vec<Segment> = Vec::new();
    r.push(edge_segment(c, 0, 1, width, height));
    r.push(edge_segment(c, 0, 2, width, height));
    r.push(edge_segment(c, 3, 1, width, height));
    r.push(edge_segment(c, 3, 2, width, height));
    r.push(edge_segment(c, 4, 5, width, height));
    r.push(edge_segment(c, 4, 6, width, height));
    r.push(edge_segment(c, 7, 5, width, height));
    r.push(edge_segment(c, 7, 6, width, height));
    r.push(edge_segment(c, 0, 4, width, height));
    r.push(edge_segment(c, 1, 5, width, height));
    r.push(edge_segment(c, 2, 6, width, height));
    r.push(edge_segment(c, 3, 7, width, height));
    r
}

} // verus!
