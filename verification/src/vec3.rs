//! Three-component integer vectors and the specification-level vector
//! algebra that the drag math is stated over.
//!
//! Stored vectors keep every component within `MAX_COORD`; intermediate
//! results of the geometry (cross products, plane normals) are carried in
//! 128-bit components and never stored.

use vstd::prelude::*;
use crate::num::{div_t, lemma_mul_bound};

verus! {

/// Bound on every component of a stored vector (2^21). Coordinates are
/// fixed-point: a caller picks the resolution by scaling its world units.
pub const MAX_COORD: i64 = 0x200000;

/// Specification-level vector: a triple of unbounded integers.
pub type V3 = (int, int, int);

pub open spec fn s_add(a: V3, b: V3) -> V3 {
    (a.0 + b.0, a.1 + b.1, a.2 + b.2)
}

pub open spec fn s_sub(a: V3, b: V3) -> V3 {
    (a.0 - b.0, a.1 - b.1, a.2 - b.2)
}

pub open spec fn s_dot(a: V3, b: V3) -> int {
    a.0 * b.0 + a.1 * b.1 + a.2 * b.2
}

pub open spec fn s_cross(a: V3, b: V3) -> V3 {
    (a.1 * b.2 - a.2 * b.1, a.2 * b.0 - a.0 * b.2, a.0 * b.1 - a.1 * b.0)
}

/// Componentwise truncating division by a positive divisor.
pub open spec fn s_div(a: V3, d: int) -> V3
    recommends
        d > 0,
{
    (div_t(a.0, d), div_t(a.1, d), div_t(a.2, d))
}

pub open spec fn s_in_range(a: V3) -> bool {
    &&& -MAX_COORD <= a.0 <= MAX_COORD
    &&& -MAX_COORD <= a.1 <= MAX_COORD
    &&& -MAX_COORD <= a.2 <= MAX_COORD
}

/// Every component within `bound` in magnitude.
pub open spec fn s_bounded(a: V3, bound: int) -> bool {
    &&& -bound <= a.0 <= bound
    &&& -bound <= a.1 <= bound
    &&& -bound <= a.2 <= bound
}

/// A 3D vector with integer components, the library's model of a point or
/// direction in world space.
#[derive(Clone, Copy, Debug, PartialEq, Eq, Structural)]
pub struct Vec3 {
    pub x: i64,
    pub y: i64,
    pub z: i64,
}

impl Vec3 {
    /// The vector as a specification-level integer triple.
    pub open spec fn s(self) -> V3 {
        (self.x as int, self.y as int, self.z as int)
    }

    /// Every component within the storage bound.
    pub open spec fn in_range(self) -> bool {
        s_in_range(self.s())
    }

    pub fn new(x: i64, y: i64, z: i64) -> (r: Vec3)
        ensures
            r.s() == (x as int, y as int, z as int),
    {
        Vec3 { x, y, z }
    }

    pub fn zero() -> (r: Vec3)
        ensures
            r.s() == (0int, 0int, 0int),
    {
        Vec3 { x: 0, y: 0, z: 0 }
    }

    pub fn is_in_range(self) -> (r: bool)
        ensures
            r == self.in_range(),
    {
        -MAX_COORD <= self.x && self.x <= MAX_COORD && -MAX_COORD <= self.y && self.y
            <= MAX_COORD && -MAX_COORD <= self.z && self.z <= MAX_COORD
    }

    /// Componentwise sum; in-range inputs cannot overflow.
    pub fn add_v(self, o: Vec3) -> (r: Vec3)
        requires
            self.in_range(),
            o.in_range(),
        ensures
            r.s() == s_add(self.s(), o.s()),
    {
        Vec3 { x: self.x + o.x, y: self.y + o.y, z: self.z + o.z }
    }

    /// Componentwise difference; in-range inputs cannot overflow.
    pub fn sub_v(self, o: Vec3) -> (r: Vec3)
        requires
            self.in_range(),
            o.in_range(),
        ensures
            r.s() == s_sub(self.s(), o.s()),
    {
        Vec3 { x: self.x - o.x, y: self.y - o.y, z: self.z - o.z }
    }

    /// Dot product of two in-range vectors, exact.
    pub fn dot(self, o: Vec3) -> (r: i128)
        requires
            self.in_range(),
            o.in_range(),
        ensures
            r == s_dot(self.s(), o.s()),
    {
        proof {
            lemma_mul_bound(self.x as int, o.x as int, MAX_COORD as int, MAX_COORD as int);
            lemma_mul_bound(self.y as int, o.y as int, MAX_COORD as int, MAX_COORD as int);
            lemma_mul_bound(self.z as int, o.z as int, MAX_COORD as int, MAX_COORD as int);
        }
        (self.x as i128) * (o.x as i128) + (self.y as i128) * (o.y as i128) + (self.z as i128) * (
        o.z as i128)
    }
}

/// A vector with 128-bit components, for intermediate results of the
/// geometry that may exceed the storage bound.
pub struct WideVec3 {
    pub x: i128,
    pub y: i128,
    pub z: i128,
}

impl WideVec3 {
    pub open spec fn s(self) -> V3 {
        (self.x as int, self.y as int, self.z as int)
    }

    /// Narrow back to a stored vector; `None` when any component is outside
    /// the storage bound.
    pub fn narrow(self) -> (r: Option<Vec3>)
        ensures
            s_in_range(self.s()) ==> r == Some(Vec3 { x: self.x as i64, y: self.y as i64, z: self.z as i64 }),
            !s_in_range(self.s()) ==> r is None,
            r matches Some(v) ==> v.s() == self.s() && v.in_range(),
    {
        if -MAX_COORD as i128 <= self.x && self.x <= MAX_COORD as i128 && -MAX_COORD as i128
            <= self.y && self.y <= MAX_COORD as i128 && -MAX_COORD as i128 <= self.z && self.z
            <= MAX_COORD as i128 {
            Some(Vec3 { x: self.x as i64, y: self.y as i64, z: self.z as i64 })
        } else {
            None
        }
    }
}

/// Cross product of two vectors whose components stay within `bound`;
/// the result's components stay within `2 * (bound * bound)`.
pub fn cross_wide(a: Vec3, b: Vec3, Ghost(bound): Ghost<int>) -> (r: WideVec3)
    requires
        s_bounded(a.s(), bound),
        s_bounded(b.s(), bound),
        0 <= bound,
        bound * bound <= 0x10000000000000000000000000000000,
    ensures
        r.s() == s_cross(a.s(), b.s()),
        s_bounded(r.s(), 2 * (bound * bound)),
{
    proof {
        assert(0 <= bound * bound) by (nonlinear_arith);
        lemma_mul_bound(a.x as int, b.y as int, bound, bound);
        lemma_mul_bound(a.x as int, b.z as int, bound, bound);
        lemma_mul_bound(a.y as int, b.x as int, bound, bound);
        lemma_mul_bound(a.y as int, b.z as int, bound, bound);
        lemma_mul_bound(a.z as int, b.x as int, bound, bound);
        lemma_mul_bound(a.z as int, b.y as int, bound, bound);
    }
    WideVec3 {
        x: (a.y as i128) * (b.z as i128) - (a.z as i128) * (b.y as i128),
        y: (a.z as i128) * (b.x as i128) - (a.x as i128) * (b.z as i128),
        z: (a.x as i128) * (b.y as i128) - (a.y as i128) * (b.x as i128),
    }
}

} // verus!
