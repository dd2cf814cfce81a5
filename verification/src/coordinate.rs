//! Coordinate mapper: pixel index to mathematical-plane coordinate.
//!
//! A pixel index `p` on an axis of length `a` maps to the plane
//! coordinate `4 * p / (a - 1) - 2`, so that index `0` lands exactly
//! on `-2` and index `a - 1` lands exactly on `+2`.  The verified
//! layer states the map as the exact rational it is: the value is
//! `numerator / denominator` with `denominator == a - 1`.  The
//! embedding program evaluates the same formula in double precision
//! when it renders; the endpoints are exact in both readings.

use vstd::prelude::*;

verus! {

/// A plane coordinate as an exact fraction: the value is
/// `numerator / denominator`, and `denominator` is always positive.
#[derive(Clone, Copy, Debug, PartialEq, Eq, Structural)]
pub struct Coordinate {
    /// The fraction's numerator, `4 * pixel_index - 2 * (axis_length - 1)`.
    pub numerator: i64,
    /// The fraction's denominator, `axis_length - 1`.
    pub denominator: u32,
}

/// The numerator of the mapped coordinate over denominator
/// `axis_length - 1`: the exact value of `4 * p / (a - 1) - 2`, put
/// over the common denominator.
pub open spec fn coordinate_numerator(pixel_index: u32, axis_length: u32) -> int {
    4 * pixel_index - 2 * (axis_length - 1)
}

/// Maps a pixel index on an axis to its plane coordinate.  The axis
/// must have at least two pixels: an axis of length one would divide
/// by zero, and is refused before rendering begins.
pub fn map_pixel(pixel_index: u32, axis_length: u32) -> (coordinate: Coordinate)
    requires
        axis_length >= 2,
        pixel_index < axis_length,
    ensures
        coordinate.denominator == axis_length - 1,
        coordinate.numerator == coordinate_numerator(pixel_index, axis_length),
        -2 * (coordinate.denominator as int) <= coordinate.numerator
            <= 2 * (coordinate.denominator as int),
{
    Coordinate {
        numerator: 4 * (pixel_index as i64) - 2 * ((axis_length - 1) as i64),
        denominator: axis_length - 1,
    }
}

/// The endpoints of every axis land exactly on the plane interval's
/// ends: index `0` maps to `-2` and index `axis_length - 1` to `+2`.
pub proof fn lemma_map_endpoints(axis_length: u32)
    requires
        axis_length >= 2,
    ensures
        coordinate_numerator(0, axis_length) == -2 * (axis_length - 1),
        coordinate_numerator((axis_length - 1) as u32, axis_length) == 2 * (axis_length - 1),
{
}

} // verus!
