use vstd::prelude::*;

verus! {

/// An integer pixel position. Value-equal coordinates are indistinguishable.
#[derive(Clone, Copy, PartialEq, Eq, Structural, Debug)]
pub struct Coordinate {
    pub x: i32,
    pub y: i32,
}

/// Dimensions a step can draw against: each side must be at least 1 (the draw
/// reduces a raw value modulo the side) and fit in the signed 32-bit range.
pub open spec fn valid_dims(w: u32, h: u32) -> bool {
    1 <= w <= 0x7FFF_FFFF && 1 <= h <= 0x7FFF_FFFF
}

/// The coordinate produced from two raw 32-bit draws against the given
/// dimensions: exactly `(d1 % w, d2 % h)`, keeping the slight modulo bias.
pub open spec fn coord_from_draws(d1: u32, d2: u32, w: u32, h: u32) -> Coordinate
    recommends
        valid_dims(w, h),
{
    Coordinate { x: (d1 % w) as i32, y: (d2 % h) as i32 }
}

/// Maps two raw 32-bit draws to a coordinate inside `[0, w) x [0, h)` by
/// reducing each draw modulo the corresponding side. No rejection-sampling
/// correction is applied: the result is exactly `(d1 % w, d2 % h)`.
pub fn draw_coordinate(d1: u32, d2: u32, w: u32, h: u32) -> (c: Coordinate)
    requires
        valid_dims(w, h),
    ensures
        c == coord_from_draws(d1, d2, w, h),
        0 <= c.x < w,
        0 <= c.y < h,
{
    Coordinate { x: (d1 % w) as i32, y: (d2 % h) as i32 }
}

/// The divisor of the legacy x draw: it maps the full 32-bit range down to
/// `[0, 128)`.
pub const FIXED_X_DIVISOR: u32 = 0x0200_0000;

/// The divisor of the legacy y draw: it maps the full 32-bit range down to
/// `[0, 64)`.
pub const FIXED_Y_DIVISOR: u32 = 0x0400_0000;

/// The coordinate the legacy fixed-divisor policy produces from two raw
/// 32-bit draws: each draw is divided by a hard-coded constant, landing the
/// point on a fixed 128 x 64 rectangle.
pub open spec fn coord_from_draws_fixed(d1: u32, d2: u32) -> Coordinate {
    Coordinate { x: (d1 / FIXED_X_DIVISOR) as i32, y: (d2 / FIXED_Y_DIVISOR) as i32 }
}

/// Maps two raw 32-bit draws to a coordinate by the legacy fixed-divisor
/// policy: integer division by hard-coded constants onto a 128 x 64 surface.
pub fn draw_coordinate_fixed(d1: u32, d2: u32) -> (c: Coordinate)
    ensures
        c == coord_from_draws_fixed(d1, d2),
        0 <= c.x < 128,
        0 <= c.y < 64,
{
    Coordinate { x: (d1 / FIXED_X_DIVISOR) as i32, y: (d2 / FIXED_Y_DIVISOR) as i32 }
}

} // verus!
