//! Points and direction vectors with exact integer coordinates.
//!
//! A single type serves both as a point (a position vector from the origin of
//! its frame) and as a direction, as is usual for support-mapping queries.

use vstd::prelude::*;

verus! {

/// Bound on the coordinates of shape geometry.
///
/// Shapes keep every stored coordinate within `[-MAX_COORD, MAX_COORD]`
/// (`2^62`), so that the dot product of a shape point with an arbitrary
/// direction — three products of a coordinate with an `i64` plus two
/// additions — always fits in an `i128`.
pub const MAX_COORD: i64 = 0x4000_0000_0000_0000;

/// A vector (or point) of 3-space with `i64` coordinates.
#[derive(Clone, Copy, PartialEq, Eq, Structural, Debug)]
pub struct Vec3 {
    pub x: i64,
    pub y: i64,
    pub z: i64,
}

/// The dot product of two vectors, as an unbounded integer.
pub open spec fn dot(a: Vec3, b: Vec3) -> int {
    a.x * b.x + a.y * b.y + a.z * b.z
}

/// True of the zero vector only.
pub open spec fn is_zero(v: Vec3) -> bool {
    v.x == 0 && v.y == 0 && v.z == 0
}

/// True when every coordinate of `v` lies within `[-MAX_COORD, MAX_COORD]`.
pub open spec fn in_coord_range(v: Vec3) -> bool {
    &&& -MAX_COORD <= v.x <= MAX_COORD
    &&& -MAX_COORD <= v.y <= MAX_COORD
    &&& -MAX_COORD <= v.z <= MAX_COORD
}

/// A product of two factors bounded in magnitude is bounded by the product of
/// the bounds.
proof fn lemma_mul_bound(a: int, b: int, bound_a: int, bound_b: int)
    requires
        -bound_a <= a <= bound_a,
        -bound_b <= b <= bound_b,
        0 <= bound_a,
        0 <= bound_b,
    ensures
        -(bound_a * bound_b) <= a * b <= bound_a * bound_b,
{
    assert(-(bound_a * bound_b) <= a * b <= bound_a * bound_b) by (nonlinear_arith)
        requires
            -bound_a <= a <= bound_a,
            -bound_b <= b <= bound_b,
            0 <= bound_a,
            0 <= bound_b,
    ;
}

/// The dot product of a coordinate-bounded vector with an arbitrary vector
/// fits in an `i128`.
proof fn lemma_dot_fits_i128(a: Vec3, b: Vec3)
    requires
        in_coord_range(a),
    ensures
        i128::MIN <= dot(a, b) <= i128::MAX,
        i128::MIN <= a.x * b.x <= i128::MAX,
        i128::MIN <= a.y * b.y <= i128::MAX,
        i128::MIN <= a.z * b.z <= i128::MAX,
        i128::MIN <= a.x * b.x + a.y * b.y <= i128::MAX,
{
    let bound_b: int = 0x8000_0000_0000_0000;
    lemma_mul_bound(a.x as int, b.x as int, MAX_COORD as int, bound_b);
    lemma_mul_bound(a.y as int, b.y as int, MAX_COORD as int, bound_b);
    lemma_mul_bound(a.z as int, b.z as int, MAX_COORD as int, bound_b);
}

impl Vec3 {
    /// Builds the vector with the given coordinates.
    pub fn new(x: i64, y: i64, z: i64) -> (r: Vec3)
        ensures
            r == (Vec3 { x, y, z }),
    {
        Vec3 { x, y, z }
    }

    /// The zero vector.
    pub fn zero() -> (r: Vec3)
        ensures
            r == (Vec3 { x: 0, y: 0, z: 0 }),
            is_zero(r),
    {
        Vec3 { x: 0, y: 0, z: 0 }
    }

    /// Whether this is the zero vector.
    pub fn is_zero(&self) -> (r: bool)
        ensures
            r == is_zero(*self),
    {
        self.x == 0 && self.y == 0 && self.z == 0
    }

    /// Whether every coordinate lies within `[-MAX_COORD, MAX_COORD]`.
    pub fn in_coord_range(&self) -> (r: bool)
        ensures
            r == in_coord_range(*self),
    {
        -MAX_COORD <= self.x && self.x <= MAX_COORD && -MAX_COORD <= self.y && self.y <= MAX_COORD
            && -MAX_COORD <= self.z && self.z <= MAX_COORD
    }

    /// The dot product of `self` with `other`.
    ///
    /// `self` must be coordinate-bounded (a shape coordinate); `other` may be
    /// any vector, so a query direction can be passed unrestricted.
    pub fn dot(&self, other: &Vec3) -> (r: i128)
        requires
            in_coord_range(*self),
        ensures
            r == dot(*self, *other),
    {
        proof {
            lemma_dot_fits_i128(*self, *other);
        }
        (self.x as i128) * (other.x as i128) + (self.y as i128) * (other.y as i128) + (self.z
            as i128) * (other.z as i128)
    }
}

} // verus!
