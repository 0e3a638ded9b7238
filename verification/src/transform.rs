//! Whole transforms: a translation, a rotation and a scale, with exact
//! composition for re-deriving the world transform of gizmo parts.

use vstd::prelude::*;
use crate::num::div_t;
use crate::quat::{q_mul, q_norm_sq, q_reduce, q_rotate, Quat};
use crate::vec3::{s_add, s_div, s_in_range, V3, Vec3, WideVec3};

verus! {

/// Fixed-point unit for scale factors (2^16): a scale of `ONE` leaves sizes
/// unchanged.
pub const ONE: i64 = 0x10000;

/// Componentwise fixed-point product of a scale and a vector.
pub open spec fn s_scale_apply(a: V3, b: V3) -> V3 {
    (div_t(a.0 * b.0, ONE as int), div_t(a.1 * b.1, ONE as int), div_t(a.2 * b.2, ONE as int))
}

/// A full transform: where a thing sits, how it is turned, how it is sized.
#[derive(Clone, Copy, Debug, PartialEq, Eq, Structural)]
pub struct Transform {
    pub translation: Vec3,
    pub rotation: Quat,
    pub scale: Vec3,
}

impl Transform {
    /// All components within their storage bounds.
    pub open spec fn in_range(self) -> bool {
        self.translation.in_range() && self.rotation.in_range() && self.scale.in_range()
    }

    /// The identity transform: at the origin, unturned, at unit scale.
    pub open spec fn s_identity() -> Transform {
        Transform {
            translation: Vec3 { x: 0, y: 0, z: 0 },
            rotation: Quat { w: 1, x: 0, y: 0, z: 0 },
            scale: Vec3 { x: ONE, y: ONE, z: ONE },
        }
    }

    pub fn identity() -> (r: Transform)
        ensures
            r == Transform::s_identity(),
            r.translation.s() == (0int, 0int, 0int),
            r.rotation.s() == (1int, 0int, 0int, 0int),
            r.scale.s() == (ONE as int, ONE as int, ONE as int),
            r.in_range(),
            q_norm_sq(r.rotation.s()) > 0,
    {
        Transform {
            translation: Vec3::zero(),
            rotation: Quat::identity(),
            scale: Vec3::new(ONE, ONE, ONE),
        }
    }

    pub fn from_translation(v: Vec3) -> (r: Transform)
        ensures
            r.translation == v,
            r.rotation.s() == (1int, 0int, 0int, 0int),
            r.scale.s() == (ONE as int, ONE as int, ONE as int),
    {
        Transform { translation: v, rotation: Quat::identity(), scale: Vec3::new(ONE, ONE, ONE) }
    }

    pub fn is_in_range(self) -> (r: bool)
        ensures
            r == self.in_range(),
    {
        self.translation.is_in_range() && self.rotation.is_in_range() && self.scale.is_in_range()
    }

    /// The world translation a child's local translation maps to under this
    /// transform: scaled, rotated, then offset.
    pub open spec fn s_apply_point(self, p: V3) -> V3 {
        s_add(self.translation.s(), q_rotate(self.rotation.s(), s_scale_apply(self.scale.s(), p)))
    }

    /// Whether composing a point through this transform stays representable
    /// at every step.
    pub open spec fn s_apply_point_ok(self, p: V3) -> bool {
        &&& s_in_range(s_scale_apply(self.scale.s(), p))
        &&& q_norm_sq(self.rotation.s()) > 0
        &&& s_in_range(q_rotate(self.rotation.s(), s_scale_apply(self.scale.s(), p)))
        &&& s_in_range(self.s_apply_point(p))
    }

    /// Map a point through the transform; `None` exactly when a step leaves
    /// the representable range or the rotation is degenerate.
    pub fn apply_point(self, p: Vec3) -> (r: Option<Vec3>)
        requires
            self.in_range(),
            p.in_range(),
        ensures
            self.s_apply_point_ok(p.s()) ==> (r matches Some(v) && v.s() == self.s_apply_point(
                p.s()) && v.in_range()),
            !self.s_apply_point_ok(p.s()) ==> r is None,
    {
        proof {
            crate::num::lemma_mul_bound(
                self.scale.x as int,
                p.x as int,
                0x200000,
                0x200000,
            );
            crate::num::lemma_mul_bound(
                self.scale.y as int,
                p.y as int,
                0x200000,
                0x200000,
            );
            crate::num::lemma_mul_bound(
                self.scale.z as int,
                p.z as int,
                0x200000,
                0x200000,
            );
        }
        let scaled = WideVec3 {
            x: crate::num::div_trunc((self.scale.x as i128) * (p.x as i128), ONE as i128),
            y: crate::num::div_trunc((self.scale.y as i128) * (p.y as i128), ONE as i128),
            z: crate::num::div_trunc((self.scale.z as i128) * (p.z as i128), ONE as i128),
        };
        let scaled_v = match scaled.narrow() {
            Some(v) => v,
            None => {
                return None;
            },
        };
        let rotated = match self.rotation.rotate(scaled_v) {
            Some(v) => v,
            None => {
                return None;
            },
        };
        let out = WideVec3 {
            x: self.translation.x as i128 + rotated.x as i128,
            y: self.translation.y as i128 + rotated.y as i128,
            z: self.translation.z as i128 + rotated.z as i128,
        };
        out.narrow()
    }

    /// Compose with a child transform (`self` is the parent): the child's
    /// translation is mapped through the parent, rotations are multiplied
    /// and scales multiply componentwise. `None` exactly when a step leaves
    /// the representable range.
    pub fn mul_transform(self, child: Transform) -> (r: Option<Transform>)
        requires
            self.in_range(),
            child.in_range(),
        ensures
            r matches Some(t) ==> {
                &&& t.translation.s() == self.s_apply_point(child.translation.s())
                &&& t.scale.s() == s_scale_apply(self.scale.s(), child.scale.s())
                &&& t.rotation.s() == q_reduce(q_mul(self.rotation.s(), child.rotation.s()))
                &&& t.in_range()
            },
            r is None <==> !(self.s_apply_point_ok(child.translation.s()) && s_in_range(
                s_scale_apply(self.scale.s(), child.scale.s()),
            )),
    {
        let translation = match self.apply_point(child.translation) {
            Some(v) => v,
            None => {
                return None;
            },
        };
        proof {
            crate::num::lemma_mul_bound(
                self.scale.x as int,
                child.scale.x as int,
                0x200000,
                0x200000,
            );
            crate::num::lemma_mul_bound(
                self.scale.y as int,
                child.scale.y as int,
                0x200000,
                0x200000,
            );
            crate::num::lemma_mul_bound(
                self.scale.z as int,
                child.scale.z as int,
                0x200000,
                0x200000,
            );
        }
        let scale_wide = WideVec3 {
            x: crate::num::div_trunc((self.scale.x as i128) * (child.scale.x as i128), ONE as i128),
            y: crate::num::div_trunc((self.scale.y as i128) * (child.scale.y as i128), ONE as i128),
            z: crate::num::div_trunc((self.scale.z as i128) * (child.scale.z as i128), ONE as i128),
        };
        let scale = match scale_wide.narrow() {
            Some(v) => v,
            None => {
                return None;
            },
        };
        let rotation = self.rotation.mul_q(child.rotation);
        Some(Transform { translation, rotation, scale })
    }
}

} // verus!
