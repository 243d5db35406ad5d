//! Exact integer geometry for the control stack.
//!
//! Coordinates are millimeters in a ground- or field-anchored frame.
//! A rigid 2D transform carries its rotation as cosine and sine scaled by
//! 1000, so applying it is integer multiplication followed by a truncating
//! division by the scale; every operation is stated exactly, including the
//! rounding.

use vstd::prelude::*;

verus! {

/// Largest coordinate magnitude (in millimeters) the framework accepts for
/// a point or translation; keeps every transform product inside `i64`.
pub const COORD_LIMIT: i64 = 2_000_000_000;

/// Scale of the stored rotation coefficients: cosine and sine times 1000.
pub const ROTATION_SCALE: u64 = 1000;

/// A position in millimeters.
#[derive(Clone, Copy, Debug, PartialEq, Eq, Structural)]
pub struct Point2 {
    pub x: i64,
    pub y: i64,
}

/// A displacement or velocity, millimeters or millimeters per second.
#[derive(Clone, Copy, Debug, PartialEq, Eq, Structural)]
pub struct Vector2 {
    pub x: i64,
    pub y: i64,
}

/// A rigid 2D transform from the ground frame to the field frame:
/// rotation (cosine and sine scaled by 1000) followed by a translation.
#[derive(Clone, Copy, Debug, PartialEq, Eq, Structural)]
pub struct Isometry2 {
    pub cos_milli: i64,
    pub sin_milli: i64,
    pub translation: Vector2,
}

/// Integer division truncating toward zero, as the transforms round.
pub open spec fn spec_div_trunc(a: int, d: int) -> int
    recommends
        d > 0,
{
    if a >= 0 {
        a / d
    } else {
        -((-a) / d)
    }
}

/// Division of a signed value by a positive divisor, truncating toward zero.
pub fn div_trunc(a: i64, d: u64) -> (q: i64)
    requires
        1 <= d,
        i64::MIN < a,
    ensures
        q as int == spec_div_trunc(a as int, d as int),
{
    if a >= 0 {
        ((a as u64) / d) as i64
    } else {
        let m: u64 = (-a) as u64;
        let qm: u64 = m / d;
        assert(qm <= m) by {
            vstd::arithmetic::div_mod::lemma_div_is_ordered_by_denominator(m as int, 1, d as int);
        }
        -(qm as i64)
    }
}

/// A point is inside the coordinate range the framework accepts.
pub open spec fn point_in_range(p: Point2) -> bool {
    -COORD_LIMIT <= p.x <= COORD_LIMIT && -COORD_LIMIT <= p.y <= COORD_LIMIT
}

/// A vector is inside the coordinate range the framework accepts.
pub open spec fn vector_in_range(v: Vector2) -> bool {
    -COORD_LIMIT <= v.x <= COORD_LIMIT && -COORD_LIMIT <= v.y <= COORD_LIMIT
}

/// A transform is well formed: the rotation coefficients lie on the scaled
/// unit circle (so it is a rigid rotation, not a scaling) and the
/// translation is in range.
pub open spec fn isometry_well_formed(iso: Isometry2) -> bool {
    &&& iso.cos_milli * iso.cos_milli + iso.sin_milli * iso.sin_milli == 1_000_000
    &&& -1000 <= iso.cos_milli <= 1000
    &&& -1000 <= iso.sin_milli <= 1000
    &&& vector_in_range(iso.translation)
}

/// X coordinate of a point taken from the ground frame to the field frame.
pub open spec fn spec_transform_x(iso: Isometry2, px: int, py: int) -> int {
    spec_div_trunc(iso.cos_milli * px - iso.sin_milli * py, 1000) + iso.translation.x
}

/// Y coordinate of a point taken from the ground frame to the field frame.
pub open spec fn spec_transform_y(iso: Isometry2, px: int, py: int) -> int {
    spec_div_trunc(iso.sin_milli * px + iso.cos_milli * py, 1000) + iso.translation.y
}

/// X coordinate of a point taken back from the field frame to the ground
/// frame: untranslate, then rotate by the transposed rotation.
pub open spec fn spec_inverse_x(iso: Isometry2, px: int, py: int) -> int {
    spec_div_trunc(
        iso.cos_milli * (px - iso.translation.x) + iso.sin_milli * (py - iso.translation.y),
        1000,
    )
}

/// Y coordinate of a point taken back from the field frame to the ground
/// frame.
pub open spec fn spec_inverse_y(iso: Isometry2, px: int, py: int) -> int {
    spec_div_trunc(
        iso.cos_milli * (py - iso.translation.y) - iso.sin_milli * (px - iso.translation.x),
        1000,
    )
}

/// X coordinate of a vector rotated back from the field frame to the ground
/// frame (translation does not act on vectors).
pub open spec fn spec_inverse_vec_x(iso: Isometry2, vx: int, vy: int) -> int {
    spec_div_trunc(iso.cos_milli * vx + iso.sin_milli * vy, 1000)
}

/// Y coordinate of a vector rotated back from the field frame to the ground
/// frame.
pub open spec fn spec_inverse_vec_y(iso: Isometry2, vx: int, vy: int) -> int {
    spec_div_trunc(iso.cos_milli * vy - iso.sin_milli * vx, 1000)
}

/// Product of a scaled rotation coefficient and a coordinate difference,
/// with the bound every transform needs to stay inside `i64`.
fn mul_milli(c: i64, v: i64) -> (r: i64)
    requires
        -1000 <= c <= 1000,
        -2 * COORD_LIMIT <= v <= 2 * COORD_LIMIT,
    ensures
        r == c * v,
        -4_000_000_000_000 <= r <= 4_000_000_000_000,
{
    proof {
        assert(-4_000_000_000_000 <= c * v <= 4_000_000_000_000) by (nonlinear_arith)
            requires
                -1000 <= c <= 1000,
                -4_000_000_000 <= v <= 4_000_000_000,
        ;
    }
    c * v
}

/// Runtime check that a point is inside the accepted coordinate range.
pub fn check_point_in_range(p: &Point2) -> (r: bool)
    ensures
        r == point_in_range(*p),
{
    -COORD_LIMIT <= p.x && p.x <= COORD_LIMIT && -COORD_LIMIT <= p.y && p.y <= COORD_LIMIT
}

/// Runtime check that a vector is inside the accepted coordinate range.
pub fn check_vector_in_range(v: &Vector2) -> (r: bool)
    ensures
        r == vector_in_range(*v),
{
    -COORD_LIMIT <= v.x && v.x <= COORD_LIMIT && -COORD_LIMIT <= v.y && v.y <= COORD_LIMIT
}

impl Isometry2 {
    /// Runtime check that the transform is well formed; values arriving
    /// through the store are validated with this before a node trusts
    /// them.
    pub fn check_well_formed(&self) -> (r: bool)
        ensures
            r == isometry_well_formed(*self),
    {
        if self.cos_milli < -1000 || self.cos_milli > 1000 || self.sin_milli < -1000
            || self.sin_milli > 1000 {
            return false;
        }
        let c = self.cos_milli;
        let s = self.sin_milli;
        proof {
            assert(0 <= c * c <= 1_000_000) by (nonlinear_arith)
                requires
                    -1000 <= c <= 1000,
            ;
            assert(0 <= s * s <= 1_000_000) by (nonlinear_arith)
                requires
                    -1000 <= s <= 1000,
            ;
        }
        c * c + s * s == 1_000_000 && check_vector_in_range(&self.translation)
    }

    /// Takes a ground-frame point to the field frame.
    pub fn transform_point(&self, p: Point2) -> (r: Point2)
        requires
            isometry_well_formed(*self),
            point_in_range(p),
        ensures
            r.x as int == spec_transform_x(*self, p.x as int, p.y as int),
            r.y as int == spec_transform_y(*self, p.x as int, p.y as int),
    {
        let rx = div_trunc(mul_milli(self.cos_milli, p.x) - mul_milli(self.sin_milli, p.y), 1000);
        let ry = div_trunc(mul_milli(self.sin_milli, p.x) + mul_milli(self.cos_milli, p.y), 1000);
        proof {
            lemma_div_trunc_small(self.cos_milli * p.x - self.sin_milli * p.y);
            lemma_div_trunc_small(self.sin_milli * p.x + self.cos_milli * p.y);
        }
        Point2 { x: rx + self.translation.x, y: ry + self.translation.y }
    }

    /// Takes a field-frame point back to the ground frame.
    pub fn inverse_transform_point(&self, p: Point2) -> (r: Point2)
        requires
            isometry_well_formed(*self),
            point_in_range(p),
        ensures
            r.x as int == spec_inverse_x(*self, p.x as int, p.y as int),
            r.y as int == spec_inverse_y(*self, p.x as int, p.y as int),
    {
        let dx = p.x - self.translation.x;
        let dy = p.y - self.translation.y;
        let rx = div_trunc(mul_milli(self.cos_milli, dx) + mul_milli(self.sin_milli, dy), 1000);
        let ry = div_trunc(mul_milli(self.cos_milli, dy) - mul_milli(self.sin_milli, dx), 1000);
        Point2 { x: rx, y: ry }
    }

    /// Rotates a field-frame vector back to the ground frame.
    pub fn inverse_transform_vector(&self, v: Vector2) -> (r: Vector2)
        requires
            isometry_well_formed(*self),
            vector_in_range(v),
        ensures
            r.x as int == spec_inverse_vec_x(*self, v.x as int, v.y as int),
            r.y as int == spec_inverse_vec_y(*self, v.x as int, v.y as int),
    {
        let rx = div_trunc(mul_milli(self.cos_milli, v.x) + mul_milli(self.sin_milli, v.y), 1000);
        let ry = div_trunc(mul_milli(self.cos_milli, v.y) - mul_milli(self.sin_milli, v.x), 1000);
        Vector2 { x: rx, y: ry }
    }
}

/// A value whose magnitude stays under 8e12 divides by 1000 into a value
/// whose magnitude stays under 8e9; keeps transformed coordinates bounded.
proof fn lemma_div_trunc_small(a: int)
    requires
        -8_000_000_000_000 <= a <= 8_000_000_000_000,
    ensures
        -8_000_000_000 <= spec_div_trunc(a, 1000) <= 8_000_000_000,
{
    if a >= 0 {
        vstd::arithmetic::div_mod::lemma_div_nonincreasing(a, 1000);
        vstd::arithmetic::div_mod::lemma_div_pos_is_pos(a, 1000);
    } else {
        vstd::arithmetic::div_mod::lemma_div_nonincreasing(-a, 1000);
        vstd::arithmetic::div_mod::lemma_div_pos_is_pos(-a, 1000);
    }
}

/// Integer square root: the greatest integer whose square does not exceed
/// the argument.
pub fn isqrt(n: u64) -> (r: u64)
    ensures
        r * r <= n < (r + 1) * (r + 1),
{
    if n == 0 {
        return 0;
    }
    let mut lo: u64 = 0;
    let mut hi: u64 = 4_294_967_296;
    proof {
        assert((4_294_967_296 as int) * (4_294_967_296 as int) > u64::MAX as int);
    }
    while lo + 1 < hi
        invariant
            lo < hi <= 4_294_967_296,
            lo * lo <= n,
            (n as int) < (hi as int) * (hi as int),
        decreases hi - lo,
    {
        let mid = lo + (hi - lo) / 2;
        proof {
            assert((mid as int) * (mid as int) <= (4_294_967_295 as int) * (4_294_967_295 as int))
                by (nonlinear_arith)
                requires
                    0 <= mid as int <= 4_294_967_295,
            ;
            assert((4_294_967_295 as int) * (4_294_967_295 as int) <= u64::MAX as int);
        }
        if mid * mid <= n {
            lo = mid;
        } else {
            hi = mid;
        }
    }
    lo
}

} // verus!
