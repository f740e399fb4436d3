//! The coordinate mapper: takes a normalized device coordinate in roughly
//! [-1.0, 1.0] and the current window size, and yields a fixed-point pixel
//! coordinate inside a centered square viewport (letterboxed on the longer
//! window dimension). The vertical axis is inverted: positive y is up in
//! device space but down in pixel space.

use crate::fixed::{lemma_mul_fits, lemma_tdiv_bound, tdiv, HALF, MAX_DIM, NDC_LIMIT, SCALE};
use vstd::prelude::*;

verus! {

/// The side, in whole pixels, of the square viewport: the smaller window
/// dimension.
pub open spec fn spec_viewport(width: int, height: int) -> int {
    if width <= height {
        width
    } else {
        height
    }
}

/// The exact fixed-point pixel x coordinate for device coordinate `x`:
/// the horizontal letterbox offset plus `(x/2 + 0.5) * viewport`.
pub open spec fn spec_pixel_x(x: int, width: int, height: int) -> int {
    (width - spec_viewport(width, height)) * HALF + (tdiv(x, 2) + HALF) * spec_viewport(
        width,
        height,
    )
}

/// The exact fixed-point pixel y coordinate for device coordinate `y`:
/// the vertical letterbox offset plus `(0.5 - y/2) * viewport`.
pub open spec fn spec_pixel_y(y: int, width: int, height: int) -> int {
    (height - spec_viewport(width, height)) * HALF + (HALF - tdiv(y, 2)) * spec_viewport(
        width,
        height,
    )
}

/// Maps a device x coordinate to its fixed-point pixel x coordinate for a
/// window of `width` by `height` whole pixels.
pub fn get_x(x: i64, width: i64, height: i64) -> (px: i64)
    requires
        0 <= width <= MAX_DIM,
        0 <= height <= MAX_DIM,
        -NDC_LIMIT <= x <= NDC_LIMIT,
    ensures
        px == spec_pixel_x(x as int, width as int, height as int),
{
    let viewport: i64 = if width <= height {
        width
    } else {
        height
    };
    proof {
        lemma_tdiv_bound(x as int, 2, (NDC_LIMIT / 2) as int);
        lemma_mul_fits(
            tdiv(x as int, 2) + HALF,
            viewport as int,
            (NDC_LIMIT / 2 + HALF) as int,
            MAX_DIM as int,
        );
    }
    (width - viewport) * HALF + (x / 2 + HALF) * viewport
}

/// Maps a device y coordinate to its fixed-point pixel y coordinate,
/// inverting the vertical axis.
pub fn get_y(y: i64, width: i64, height: i64) -> (py: i64)
    requires
        0 <= width <= MAX_DIM,
        0 <= height <= MAX_DIM,
        -NDC_LIMIT <= y <= NDC_LIMIT,
    ensures
        py == spec_pixel_y(y as int, width as int, height as int),
{
    let viewport: i64 = if width <= height {
        width
    } else {
        height
    };
    proof {
        lemma_tdiv_bound(y as int, 2, (NDC_LIMIT / 2) as int);
        lemma_mul_fits(
            HALF - tdiv(y as int, 2),
            viewport as int,
            (NDC_LIMIT / 2 + HALF) as int,
            MAX_DIM as int,
        );
    }
    (height - viewport) * HALF + (HALF - y / 2) * viewport
}

/// In a square window the mapper is centered: device x = 0 lands on the
/// middle column (width/2, held in fixed-point as `width * HALF`), device
/// x = -1.0 on the left edge, and device x = +1.0 on the right edge.
pub proof fn lemma_mapper_centering(width: int)
    requires
        0 <= width,
    ensures
        spec_pixel_x(0, width, width) == width * HALF,
        spec_pixel_x(-(SCALE as int), width, width) == 0,
        spec_pixel_x(SCALE as int, width, width) == width * SCALE,
{
    vstd::arithmetic::mul::lemma_mul_is_commutative(width, HALF as int);
    vstd::arithmetic::mul::lemma_mul_is_commutative(width, SCALE as int);
    vstd::arithmetic::mul::lemma_mul_basics(width);
}

/// In a window wider than tall, the horizontal letterbox offset is exactly
/// half the difference of the dimensions, on both sides: the square viewport
/// spans from `(width-height)/2` to `(width-height)/2 + height` pixels.
pub proof fn lemma_letterbox_horizontal(width: int, height: int)
    requires
        0 <= height <= width,
    ensures
        spec_pixel_x(-(SCALE as int), width, height) == (width - height) * HALF,
        spec_pixel_x(SCALE as int, width, height) == (width - height) * HALF + height * SCALE,
        width * SCALE - spec_pixel_x(SCALE as int, width, height) == spec_pixel_x(
            -(SCALE as int),
            width,
            height,
        ),
{
}

/// In a window taller than wide, the vertical letterbox offset is exactly
/// half the difference of the dimensions, on both sides; device y = +1.0 is
/// the viewport's top edge (the axis is inverted).
pub proof fn lemma_letterbox_vertical(width: int, height: int)
    requires
        0 <= width <= height,
    ensures
        spec_pixel_y(SCALE as int, width, height) == (height - width) * HALF,
        spec_pixel_y(-(SCALE as int), width, height) == (height - width) * HALF + width * SCALE,
        height * SCALE - spec_pixel_y(-(SCALE as int), width, height) == spec_pixel_y(
            SCALE as int,
            width,
            height,
        ),
{
    vstd::arithmetic::mul::lemma_mul_is_commutative(width, SCALE as int);
    vstd::arithmetic::mul::lemma_mul_basics(width);
}

} // verus!
